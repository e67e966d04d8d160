//! The order in which libraries are built: every library after those that it
//! depends on, each one once, and none compiled that the cache already holds.
//!
//! A plan is a statement of that order. A builder that compiles the libraries
//! of a registry itself follows the plan step by step. Where the recipe of a
//! library comes from elsewhere and builds what it depends on by itself, the
//! plan is not run: it is the order that such a recipe is held to.
use vstd::prelude::*;
use crate::error::Error;
use crate::text::owned;

verus! {

/// How the archive of a library's sources is packed.
#[derive(Copy, Clone, Debug, PartialEq, Eq, Structural)]
pub enum TarArchive {
    Gz,
    Xz,
}

/// Where the sources of a library come from.
#[derive(Clone, Debug, PartialEq, Eq)]
pub enum LibraryLocation {
    /// A repository under version control, at a reference.
    Git { url: String, reference: String },
    /// An archive to fetch, and the directory that it unpacks to.
    Tar { url: String, archive: TarArchive, sources: String },
    /// A directory of the file system.
    Path { path: String },
}

/// A library: its name, the place of its sources, and the libraries that it
/// depends on, each by its index in the registry.
#[derive(Clone, Debug, PartialEq, Eq)]
pub struct Library {
    pub name: String,
    pub location: LibraryLocation,
    pub dependencies: Vec<usize>,
}

/// One step of building libraries.
#[derive(Copy, Clone, Debug, PartialEq, Eq, Structural)]
pub enum BuildStep {
    /// Make sure that the sources of the library are there.
    EnsureSources { library: usize },
    /// Start the toolchain on the library.
    Compile { library: usize },
}

impl BuildStep {
    /// The library that the step is about.
    pub open spec fn of(self) -> usize {
        match self {
            BuildStep::EnsureSources { library } => library,
            BuildStep::Compile { library } => library,
        }
    }
}

/// Every dependency is a library of the graph.
pub open spec fn well_linked(graph: Seq<Seq<usize>>) -> bool {
    forall|i: int, k: int|
        0 <= i < graph.len() && 0 <= k < graph[i].len() ==> (#[trigger] graph[i][k]) < graph.len()
}

/// A chain of dependencies: libraries of the graph, each depending on the next.
pub open spec fn is_chain(graph: Seq<Seq<usize>>, chain: Seq<usize>) -> bool {
    &&& chain.len() >= 1
    &&& forall|k: int| 0 <= k < chain.len() ==> (#[trigger] chain[k]) < graph.len()
    &&& forall|k: int|
        0 <= k < chain.len() - 1 ==> graph[(#[trigger] chain[k]) as int].contains(chain[k + 1])
}

/// `library` is asked for, or is needed by a library that is asked for.
pub open spec fn is_needed(graph: Seq<Seq<usize>>, requested: Seq<usize>, library: usize) -> bool {
    exists|chain: Seq<usize>|
        #![trigger is_chain(graph, chain)]
        is_chain(graph, chain) && requested.contains(chain[0]) && chain.last() == library
}

/// A chain that begins at a requested library and is longer than the graph has
/// libraries: a library on it depends on itself in the end.
pub open spec fn has_endless_chain(graph: Seq<Seq<usize>>, requested: Seq<usize>) -> bool {
    exists|chain: Seq<usize>|
        #![trigger is_chain(graph, chain)]
        is_chain(graph, chain) && requested.contains(chain[0]) && chain.len() == graph.len() + 1
}

/// The sources of `library` are made sure of before the step at `position`.
pub open spec fn sourced_before(plan: Seq<BuildStep>, library: usize, position: int) -> bool {
    plan.subrange(0, position).contains(BuildStep::EnsureSources { library })
}

/// No step of a library comes before every library that it depends on is
/// done with.
pub open spec fn dependencies_first(graph: Seq<Seq<usize>>, plan: Seq<BuildStep>) -> bool {
    forall|position: int, k: int|
        0 <= position < plan.len() && 0 <= k < graph[plan[position].of() as int].len()
            ==> sourced_before(
            plan,
            #[trigger] graph[plan[position].of() as int][k],
            position,
        )
}

/// A library is compiled right after its sources are made sure of.
pub open spec fn sources_first(plan: Seq<BuildStep>) -> bool {
    forall|position: int|
        0 <= position < plan.len() && (#[trigger] plan[position]) is Compile ==> position > 0
            && plan[position - 1] == (BuildStep::EnsureSources { library: plan[position].of() })
}

/// Every step is about a library of the graph.
pub open spec fn in_range(graph: Seq<Seq<usize>>, plan: Seq<BuildStep>) -> bool {
    forall|position: int|
        0 <= position < plan.len() ==> (#[trigger] plan[position]).of() < graph.len()
}

/// A library is compiled exactly when the cache does not hold it.
pub open spec fn cache_respected(plan: Seq<BuildStep>, cached: Seq<usize>) -> bool {
    forall|position: int|
        0 <= position < plan.len() ==> {
            &&& (#[trigger] plan[position]) is Compile ==> !cached.contains(plan[position].of())
            &&& plan[position] is EnsureSources && !cached.contains(plan[position].of())
                ==> position + 1 < plan.len() && plan[position + 1] == (BuildStep::Compile {
                library: plan[position].of(),
            })
        }
}

/// Only what is needed is built.
pub open spec fn only_needed(
    graph: Seq<Seq<usize>>,
    requested: Seq<usize>,
    plan: Seq<BuildStep>,
) -> bool {
    forall|position: int|
        0 <= position < plan.len() ==> is_needed(graph, requested, (#[trigger] plan[position]).of())
}

/// What holds of a plan while it grows.
pub open spec fn is_partial_plan(
    graph: Seq<Seq<usize>>,
    requested: Seq<usize>,
    cached: Seq<usize>,
    plan: Seq<BuildStep>,
) -> bool {
    &&& dependencies_first(graph, plan)
    &&& sources_first(plan)
    &&& plan.no_duplicates()
    &&& in_range(graph, plan)
    &&& cache_respected(plan, cached)
    &&& only_needed(graph, requested, plan)
}

/// A plan for building the requested libraries: every requested library is
/// built, and nothing that is not needed; the sources of a library are made
/// sure of whether the cache holds it or not, and it is compiled right after
/// that if and only if the cache does not hold it; no step is taken twice; and
/// no step of a library comes before the libraries that it depends on are done
/// with.
pub open spec fn is_plan(
    graph: Seq<Seq<usize>>,
    requested: Seq<usize>,
    cached: Seq<usize>,
    plan: Seq<BuildStep>,
) -> bool {
    &&& is_partial_plan(graph, requested, cached, plan)
    &&& forall|k: int|
        0 <= k < requested.len() ==> plan.contains(
            BuildStep::EnsureSources { library: #[trigger] requested[k] },
        )
}

/// What the search knows: a library is marked exactly when the plan holds it.
pub open spec fn marks_agree(graph: Seq<Seq<usize>>, plan: Seq<BuildStep>, visited: Seq<bool>) -> bool {
    &&& visited.len() == graph.len()
    &&& forall|library: usize|
        library < graph.len() ==> ((#[trigger] visited[library as int]) <==> plan.contains(
            BuildStep::EnsureSources { library },
        ))
}

/// The plan with the steps of one more library.
pub open spec fn extended(plan: Seq<BuildStep>, library: usize, cached: Seq<usize>) -> Seq<
    BuildStep,
> {
    if cached.contains(library) {
        plan.push(BuildStep::EnsureSources { library })
    } else {
        plan.push(BuildStep::EnsureSources { library }).push(BuildStep::Compile { library })
    }
}

/// A plan stays a plan when the steps of a library are added whose
/// dependencies it holds and that it does not hold itself.
proof fn lemma_extend(
    graph: Seq<Seq<usize>>,
    requested: Seq<usize>,
    cached: Seq<usize>,
    plan: Seq<BuildStep>,
    visited: Seq<bool>,
    library: usize,
)
    requires
        well_linked(graph),
        is_partial_plan(graph, requested, cached, plan),
        marks_agree(graph, plan, visited),
        library < graph.len(),
        !visited[library as int],
        is_needed(graph, requested, library),
        forall|k: int|
            0 <= k < graph[library as int].len() ==> visited[(#[trigger] graph[library as int][k])
                as int],
    ensures
        is_partial_plan(graph, requested, cached, extended(plan, library, cached)),
        marks_agree(graph, extended(plan, library, cached), visited.update(library as int, true)),
{
    let sources = BuildStep::EnsureSources { library };
    let compile = BuildStep::Compile { library };
    let after = extended(plan, library, cached);
    let n = plan.len() as int;
    assert(!plan.contains(sources));
    assert(!plan.contains(compile)) by {
        if plan.contains(compile) {
            let at = choose|at: int| 0 <= at < plan.len() && plan[at] == compile;
            assert(plan[at] is Compile);
            assert(plan[at - 1] == sources);
        }
    }
    assert(after.subrange(0, n) =~= plan);
    assert(after[n] == sources);
    assert forall|position: int| 0 <= position < n implies after[position] == plan[position] by {}
    assert forall|position: int, k: int|
        0 <= position < after.len() && 0 <= k < graph[after[position].of() as int].len()
        implies sourced_before(
        after,
        #[trigger] graph[after[position].of() as int][k],
        position,
    ) by {
        let needed = graph[after[position].of() as int][k];
        if position < n {
            assert(after[position] == plan[position]);
            assert(sourced_before(plan, graph[plan[position].of() as int][k], position));
            assert(after.subrange(0, position) =~= plan.subrange(0, position));
        } else {
            assert(after[position].of() == library);
            assert(visited[needed as int]);
            assert(plan.contains(BuildStep::EnsureSources { library: needed }));
            let at = choose|at: int|
                0 <= at < plan.len() && plan[at] == (BuildStep::EnsureSources { library: needed });
            assert(after.subrange(0, position)[at] == plan[at]);
        }
    }
    assert(sources_first(after)) by {
        assert forall|position: int|
            0 <= position < after.len() && (#[trigger] after[position]) is Compile implies position
            > 0 && after[position - 1] == (BuildStep::EnsureSources {
            library: after[position].of(),
        }) by {
            if position < n {
                assert(plan[position] is Compile);
                assert(after[position - 1] == plan[position - 1]);
            }
        }
    }
    assert(after.no_duplicates()) by {
        assert forall|i: int, j: int| 0 <= i < after.len() && 0 <= j < after.len() && i != j implies after[i]
            != after[j] by {
            if i < n && j < n {
                assert(plan[i] != plan[j]);
            } else if i < n {
                assert(after[i] == plan[i]);
                assert(plan.contains(plan[i]));
            } else if j < n {
                assert(after[j] == plan[j]);
                assert(plan.contains(plan[j]));
            }
        }
    }
    assert(in_range(graph, after)) by {
        assert forall|position: int| 0 <= position < after.len() implies (#[trigger] after[position]).of()
            < graph.len() by {
            if position < n {
                assert(after[position] == plan[position]);
            }
        }
    }
    assert(cache_respected(after, cached)) by {
        assert forall|position: int| 0 <= position < after.len() implies {
            &&& (#[trigger] after[position]) is Compile ==> !cached.contains(after[position].of())
            &&& after[position] is EnsureSources && !cached.contains(after[position].of())
                ==> position + 1 < after.len() && after[position + 1] == (BuildStep::Compile {
                library: after[position].of(),
            })
        } by {
            if position < n {
                assert(after[position] == plan[position]);
                if plan[position] is EnsureSources && !cached.contains(plan[position].of()) {
                    assert(after[position + 1] == plan[position + 1]);
                }
            }
        }
    }
    assert(only_needed(graph, requested, after)) by {
        assert forall|position: int| 0 <= position < after.len() implies is_needed(
            graph,
            requested,
            (#[trigger] after[position]).of(),
        ) by {
            if position < n {
                assert(after[position] == plan[position]);
            }
        }
    }
    let marks = visited.update(library as int, true);
    assert forall|other: usize| other < graph.len() implies ((#[trigger] marks[other as int])
        <==> after.contains(BuildStep::EnsureSources { library: other })) by {
        let wanted = BuildStep::EnsureSources { library: other };
        if other == library {
            assert(after[n] == wanted);
        } else {
            if plan.contains(wanted) {
                let at = choose|at: int| 0 <= at < plan.len() && plan[at] == wanted;
                assert(after[at] == wanted);
            }
            if after.contains(wanted) {
                let at = choose|at: int| 0 <= at < after.len() && after[at] == wanted;
                assert(at < n);
                assert(plan[at] == wanted);
            }
        }
    }
}

/// A plan that is the beginning of another holds nothing that the other
/// does not hold.
pub open spec fn is_beginning_of(plan: Seq<BuildStep>, longer: Seq<BuildStep>) -> bool {
    plan.len() <= longer.len() && longer.subrange(0, plan.len() as int) == plan
}

/// What holds while the plan is searched for: the plan is sound as far as it
/// goes, and the marks agree with it.
#[verifier::opaque]
pub closed spec fn search_holds(
    graph: Seq<Seq<usize>>,
    requested: Seq<usize>,
    cached: Seq<usize>,
    plan: Seq<BuildStep>,
    visited: Seq<bool>,
) -> bool {
    is_partial_plan(graph, requested, cached, plan) && marks_agree(graph, plan, visited)
}

/// The search begins with an empty plan and no mark.
pub proof fn lemma_search_begins(
    graph: Seq<Seq<usize>>,
    requested: Seq<usize>,
    cached: Seq<usize>,
    visited: Seq<bool>,
)
    requires
        visited.len() == graph.len(),
        forall|i: int| 0 <= i < visited.len() ==> !visited[i],
    ensures
        search_holds(graph, requested, cached, Seq::empty(), visited),
{
    reveal(search_holds);
}

/// There is a mark for every library.
pub proof fn lemma_search_marks(
    graph: Seq<Seq<usize>>,
    requested: Seq<usize>,
    cached: Seq<usize>,
    plan: Seq<BuildStep>,
    visited: Seq<bool>,
)
    requires
        search_holds(graph, requested, cached, plan, visited),
    ensures
        visited.len() == graph.len(),
{
    reveal(search_holds);
}

/// The search goes on when the steps of a library are added whose
/// dependencies are marked and that is not marked itself.
pub proof fn lemma_search_extends(
    graph: Seq<Seq<usize>>,
    requested: Seq<usize>,
    cached: Seq<usize>,
    plan: Seq<BuildStep>,
    visited: Seq<bool>,
    library: usize,
    chain: Seq<usize>,
)
    requires
        well_linked(graph),
        search_holds(graph, requested, cached, plan, visited),
        library < graph.len(),
        !visited[library as int],
        is_chain(graph, chain),
        requested.contains(chain[0]),
        chain.last() == library,
        forall|k: int|
            0 <= k < graph[library as int].len() ==> visited[(#[trigger] graph[library as int][k])
                as int],
    ensures
        search_holds(
            graph,
            requested,
            cached,
            extended(plan, library, cached),
            visited.update(library as int, true),
        ),
        is_beginning_of(plan, extended(plan, library, cached)),
{
    reveal(search_holds);
    assert(is_needed(graph, requested, library));
    lemma_extend(graph, requested, cached, plan, visited, library);
    assert(extended(plan, library, cached).subrange(0, plan.len() as int) =~= plan);
}

/// The search ends with a plan once every requested library is marked.
pub proof fn lemma_search_ends(
    graph: Seq<Seq<usize>>,
    requested: Seq<usize>,
    cached: Seq<usize>,
    plan: Seq<BuildStep>,
    visited: Seq<bool>,
)
    requires
        search_holds(graph, requested, cached, plan, visited),
        forall|k: int|
            0 <= k < requested.len() ==> (#[trigger] requested[k]) < graph.len()
                && visited[requested[k] as int],
    ensures
        is_plan(graph, requested, cached, plan),
{
    reveal(search_holds);
}

/// A chain with one more library, on which its last library depends.
proof fn lemma_chain_grows(graph: Seq<Seq<usize>>, chain: Seq<usize>, at: int)
    requires
        well_linked(graph),
        is_chain(graph, chain),
        0 <= at < graph[chain.last() as int].len(),
    ensures
        is_chain(graph, chain.push(graph[chain.last() as int][at])),
        chain.push(graph[chain.last() as int][at])[0] == chain[0],
{
    let next = graph[chain.last() as int][at];
    let longer = chain.push(next);
    assert forall|a: int| 0 <= a < longer.len() - 1 implies graph[(#[trigger] longer[a])
        as int].contains(longer[a + 1]) by {
        if a < chain.len() - 1 {
            assert(longer[a] == chain[a]);
            assert(longer[a + 1] == chain[a + 1]);
        } else {
            assert(longer[a] == chain.last());
            assert(longer[a + 1] == next);
        }
    }
    assert forall|a: int| 0 <= a < longer.len() implies (#[trigger] longer[a]) < graph.len() by {
        if a < chain.len() {
            assert(longer[a] == chain[a]);
        }
    }
}

/// The beginning of a beginning is a beginning.
proof fn lemma_beginnings(first: Seq<BuildStep>, second: Seq<BuildStep>, third: Seq<BuildStep>)
    requires
        is_beginning_of(first, second),
        is_beginning_of(second, third),
    ensures
        is_beginning_of(first, third),
{
    assert(third.subrange(0, first.len() as int) =~= second.subrange(0, first.len() as int));
}

/// The libraries, and how they depend on each other. Every dependency of a
/// registered library is itself registered.
pub struct LibraryRegistry {
    libraries: Vec<Library>,
}

/// The dependencies of each of `libraries`.
pub open spec fn graph_of(libraries: Seq<Library>) -> Seq<Seq<usize>> {
    libraries.map_values(|library: Library| library.dependencies@)
}

/// The names of `libraries`.
pub open spec fn names_of(libraries: Seq<Library>) -> Seq<Seq<char>> {
    libraries.map_values(|library: Library| library.name@)
}

impl LibraryRegistry {
    /// The libraries, as they were registered and in that order.
    pub closed spec fn entries(self) -> Seq<Library> {
        self.libraries@
    }

    /// The dependencies of each library.
    pub open spec fn graph(self) -> Seq<Seq<usize>> {
        graph_of(self.entries())
    }

    /// The name of each library.
    pub open spec fn names(self) -> Seq<Seq<char>> {
        names_of(self.entries())
    }

    #[verifier::type_invariant]
    spec fn linked(self) -> bool {
        well_linked(self.graph())
    }

    /// The registry of `libraries`. A list in which a library depends on
    /// something that is not in the list is refused, with the name of the
    /// first such library.
    pub fn new(libraries: Vec<Library>) -> (registry: Result<Self, Error>)
        ensures
            match registry {
                Ok(registry) => {
                    &&& well_linked(graph_of(libraries@))
                    &&& registry.entries() == libraries@
                },
                Err(error) => {
                    &&& !well_linked(graph_of(libraries@))
                    &&& error matches Error::CouldNotCompile { library }
                    &&& exists|i: int|
                        0 <= i < libraries@.len() && library@ == (#[trigger] libraries@[i]).name@
                },
            },
    {
        let n = libraries.len();
        let ghost graph = graph_of(libraries@);
        let mut i: usize = 0;
        while i < n
            invariant
                i <= n,
                n == libraries.len(),
                graph == graph_of(libraries@),
                forall|a: int, k: int|
                    0 <= a < i && 0 <= k < graph[a].len() ==> (#[trigger] graph[a][k]) < graph.len(),
            decreases n - i,
        {
            let library = &libraries[i];
            let mut k: usize = 0;
            while k < library.dependencies.len()
                invariant
                    i < n,
                    n == libraries.len(),
                    *library == libraries@[i as int],
                    graph == graph_of(libraries@),
                    k <= library.dependencies.len(),
                    forall|b: int| 0 <= b < k ==> (#[trigger] graph[i as int][b]) < graph.len(),
                decreases library.dependencies.len() - k,
            {
                if library.dependencies[k] >= n {
                    assert(graph[i as int][k as int] >= graph.len());
                    return Err(Error::CouldNotCompile { library: owned(library.name.as_str()) });
                }
                k = k + 1;
            }
            i = i + 1;
        }
        Ok(LibraryRegistry { libraries })
    }

    /// How many libraries are registered.
    pub fn len(&self) -> (n: usize)
        ensures
            n == self.entries().len(),
    {
        self.libraries.len()
    }

    /// The library at `index`, as it was registered: with its name, the place
    /// of its sources and what it depends on.
    pub fn get(&self, index: usize) -> (library: Option<&Library>)
        ensures
            match library {
                Some(library) => index < self.entries().len() && *library
                    == self.entries()[index as int],
                None => index >= self.entries().len(),
            },
    {
        if index < self.libraries.len() {
            Some(&self.libraries[index])
        } else {
            None
        }
    }

    /// The index of the first library named `name`.
    pub fn index_of(&self, name: &str) -> (index: Option<usize>)
        ensures
            match index {
                Some(i) => {
                    &&& i < self.names().len()
                    &&& self.names()[i as int] == name@
                    &&& forall|j: int| 0 <= j < i ==> self.names()[j] != name@
                },
                None => !self.names().contains(name@),
            },
    {
        let mut i: usize = 0;
        while i < self.libraries.len()
            invariant
                i <= self.libraries.len(),
                forall|j: int| 0 <= j < i ==> self.names()[j] != name@,
            decreases self.libraries.len() - i,
        {
            if crate::text::str_eq(self.libraries[i].name.as_str(), name) {
                return Some(i);
            }
            i = i + 1;
        }
        None
    }

    /// Builds `library`, after the libraries that it depends on, unless the
    /// plan holds it already. `budget` is how much longer the chain that leads
    /// here may grow.
    fn visit(
        &self,
        library: usize,
        budget: usize,
        cached: &Vec<usize>,
        plan: &mut Vec<BuildStep>,
        visited: &mut Vec<bool>,
        Ghost(requested): Ghost<Seq<usize>>,
        Ghost(chain): Ghost<Seq<usize>>,
    ) -> (outcome: Result<(), Error>)
        requires
            well_linked(self.graph()),
            library < self.graph().len(),
            search_holds(self.graph(), requested, cached@, old(plan)@, old(visited)@),
            is_chain(self.graph(), chain),
            requested.contains(chain[0]),
            chain.last() == library,
            chain.len() + budget == self.graph().len() + 1,
        ensures
            match outcome {
                Ok(_) => {
                    &&& search_holds(
                        self.graph(),
                        requested,
                        cached@,
                        final(plan)@,
                        final(visited)@,
                    )
                    &&& is_beginning_of(old(plan)@, final(plan)@)
                    &&& final(visited)@.len() == old(visited)@.len()
                    &&& final(visited)@[library as int]
                    &&& forall|other: int|
                        0 <= other < old(visited)@.len() && old(visited)@[other]
                            ==> final(visited)@[other]
                },
                Err(error) => has_endless_chain(self.graph(), requested) && error is CouldNotCompile,
            },
        decreases budget,
    {
        proof {
            lemma_search_marks(self.graph(), requested, cached@, plan@, visited@);
            assert(plan@.subrange(0, plan@.len() as int) =~= plan@);
        }
        if visited[library] {
            return Ok(());
        }
        if budget == 0 {
            return Err(
                Error::CouldNotCompile { library: owned(self.libraries[library].name.as_str()) },
            );
        }
        let count = self.libraries[library].dependencies.len();
        let ghost needs = self.graph()[library as int];
        let mut k: usize = 0;
        while k < count
            invariant
                k <= count,
                budget > 0,
                well_linked(self.graph()),
                library < self.graph().len(),
                needs == self.graph()[library as int],
                needs == self.libraries@[library as int].dependencies@,
                count == needs.len(),
                search_holds(self.graph(), requested, cached@, plan@, visited@),
                is_beginning_of(old(plan)@, plan@),
                visited@.len() == old(visited)@.len(),
                visited@.len() == self.graph().len(),
                is_chain(self.graph(), chain),
                requested.contains(chain[0]),
                chain.last() == library,
                chain.len() + budget == self.graph().len() + 1,
                forall|other: int|
                    0 <= other < old(visited)@.len() && old(visited)@[other] ==> visited@[other],
                forall|b: int| 0 <= b < k ==> visited@[(#[trigger] needs[b]) as int],
            decreases count - k,
        {
            let dependency = self.libraries[library].dependencies[k];
            let ghost longer = chain.push(dependency);
            let ghost before = plan@;
            proof {
                assert(needs[k as int] == dependency);
                lemma_chain_grows(self.graph(), chain, k as int);
            }
            match self.visit(
                dependency,
                budget - 1,
                cached,
                plan,
                visited,
                Ghost(requested),
                Ghost(longer),
            ) {
                Ok(_) => {},
                Err(error) => {
                    return Err(error);
                },
            }
            proof {
                lemma_beginnings(old(plan)@, before, plan@);
            }
            k = k + 1;
        }
        if visited[library] {
            return Ok(());
        }
        let ghost before = plan@;
        let ghost marks = visited@;
        proof {
            lemma_search_extends(
                self.graph(),
                requested,
                cached@,
                before,
                marks,
                library,
                chain,
            );
        }
        plan.push(BuildStep::EnsureSources { library });
        if !holds(cached, library) {
            plan.push(BuildStep::Compile { library });
        }
        visited.set(library, true);
        proof {
            assert(plan@ == extended(before, library, cached@));
            assert(visited@ == marks.update(library as int, true));
            lemma_beginnings(old(plan)@, before, plan@);
        }
        Ok(())
    }

    /// The plan that builds the requested libraries, each given by its index:
    /// depth first, and dependencies first. `cached` holds the libraries whose
    /// cache directory is there; they are not compiled again, whatever the
    /// directory holds. There is no plan where a request names no library, or
    /// where the dependencies of a requested library never end.
    pub fn compile_all(&self, requested: &Vec<usize>, cached: &Vec<usize>) -> (plan: Result<
        Vec<BuildStep>,
        Error,
    >)
        ensures
            match plan {
                Ok(plan) => is_plan(self.graph(), requested@, cached@, plan@),
                Err(error) => {
                    &&& error is CouldNotCompile
                    &&& has_endless_chain(self.graph(), requested@) || exists|k: int|
                        0 <= k < requested.len() && (#[trigger] requested[k]) >= self.graph().len()
                },
            },
    {
        proof {
            use_type_invariant(self);
        }
        let n = self.libraries.len();
        let mut visited: Vec<bool> = Vec::new();
        while visited.len() < n
            invariant
                visited.len() <= n,
                forall|i: int| 0 <= i < visited.len() ==> !visited@[i],
            decreases n - visited.len(),
        {
            visited.push(false);
        }
        let mut plan: Vec<BuildStep> = Vec::new();
        proof {
            lemma_search_begins(self.graph(), requested@, cached@, visited@);
            assert(plan@ =~= Seq::<BuildStep>::empty());
        }
        let mut k: usize = 0;
        while k < requested.len()
            invariant
                k <= requested.len(),
                n == self.graph().len(),
                visited@.len() == n,
                well_linked(self.graph()),
                search_holds(self.graph(), requested@, cached@, plan@, visited@),
                forall|b: int|
                    0 <= b < k ==> (#[trigger] requested@[b]) < n && visited@[requested@[b] as int],
            decreases requested.len() - k,
        {
            let library = requested[k];
            if library >= n {
                return Err(
                    Error::CouldNotCompile { library: crate::text::decimal_string(library as u64) },
                );
            }
            let ghost chain = seq![library];
            proof {
                assert(requested@[k as int] == library);
                assert(requested@.contains(chain[0]));
            }
            match self.visit(
                library,
                n,
                cached,
                &mut plan,
                &mut visited,
                Ghost(requested@),
                Ghost(chain),
            ) {
                Ok(_) => {},
                Err(error) => {
                    return Err(error);
                },
            }
            k = k + 1;
        }
        proof {
            lemma_search_ends(self.graph(), requested@, cached@, plan@, visited@);
        }
        Ok(plan)
    }

    /// The plan that builds one library.
    pub fn compile(&self, library: usize, cached: &Vec<usize>) -> (plan: Result<
        Vec<BuildStep>,
        Error,
    >)
        ensures
            match plan {
                Ok(plan) => is_plan(self.graph(), seq![library], cached@, plan@),
                Err(error) => {
                    &&& error is CouldNotCompile
                    &&& has_endless_chain(self.graph(), seq![library]) || library
                        >= self.graph().len()
                },
            },
    {
        let mut requested: Vec<usize> = Vec::new();
        requested.push(library);
        assert(requested@ =~= seq![library]);
        self.compile_all(&requested, cached)
    }
}

/// In a plan, every library on which a library depends, directly or through
/// others, is done with before any step of that library: along a chain of
/// dependencies that begins at the library of a step, the sources of the last
/// library are made sure of, and the library is compiled if it has to be,
/// before that step.
pub proof fn lemma_dependencies_are_done_first(
    graph: Seq<Seq<usize>>,
    plan: Seq<BuildStep>,
    chain: Seq<usize>,
    position: int,
)
    requires
        dependencies_first(graph, plan),
        is_chain(graph, chain),
        chain.len() >= 2,
        0 <= position < plan.len(),
        plan[position].of() == chain[0],
    ensures
        sourced_before(plan, chain.last(), position),
    decreases chain.len(),
{
    let next = chain[1];
    assert(graph[chain[0int] as int].contains(chain[0int + 1]));
    let k = choose|k: int| 0 <= k < graph[chain[0] as int].len() && graph[chain[0] as int][k] == next;
    assert(sourced_before(plan, graph[plan[position].of() as int][k], position));
    let begun = plan.subrange(0, position);
    let at = choose|at: int|
        0 <= at < begun.len() && begun[at] == (BuildStep::EnsureSources { library: next });
    assert(plan[at] == begun[at]);
    if chain.len() > 2 {
        let rest = chain.subrange(1, chain.len() as int);
        assert(is_chain(graph, rest)) by {
            assert forall|a: int| 0 <= a < rest.len() implies (#[trigger] rest[a]) < graph.len() by {
                assert(rest[a] == chain[a + 1]);
            }
            assert forall|a: int| 0 <= a < rest.len() - 1 implies graph[(#[trigger] rest[a])
                as int].contains(rest[a + 1]) by {
                assert(rest[a] == chain[a + 1]);
                assert(rest[a + 1] == chain[(a + 1) + 1]);
            }
        }
        assert(rest.last() == chain.last());
        lemma_dependencies_are_done_first(graph, plan, rest, at);
        let earlier = plan.subrange(0, at);
        let found = choose|found: int|
            0 <= found < earlier.len() && earlier[found] == (BuildStep::EnsureSources {
                library: chain.last(),
            });
        assert(begun[found] == earlier[found]);
    }
}

/// A plan holds every library that is needed.
pub proof fn lemma_plan_holds_what_is_needed(
    graph: Seq<Seq<usize>>,
    requested: Seq<usize>,
    cached: Seq<usize>,
    plan: Seq<BuildStep>,
    library: usize,
)
    requires
        is_plan(graph, requested, cached, plan),
        is_needed(graph, requested, library),
    ensures
        plan.contains(BuildStep::EnsureSources { library }),
{
    let chain = choose|chain: Seq<usize>|
        #![trigger is_chain(graph, chain)]
        is_chain(graph, chain) && requested.contains(chain[0]) && chain.last() == library;
    let k = choose|k: int| 0 <= k < requested.len() && requested[k] == chain[0];
    assert(plan.contains(BuildStep::EnsureSources { library: requested[k] }));
    let position = choose|position: int|
        0 <= position < plan.len() && plan[position] == (BuildStep::EnsureSources {
            library: chain[0],
        });
    if chain.len() >= 2 {
        lemma_dependencies_are_done_first(graph, plan, chain, position);
        let begun = plan.subrange(0, position);
        let at = choose|at: int|
            0 <= at < begun.len() && begun[at] == (BuildStep::EnsureSources { library });
        assert(plan[at] == begun[at]);
    }
}

/// A part of a chain is a chain.
proof fn lemma_part_of_chain(graph: Seq<Seq<usize>>, chain: Seq<usize>, from: int, to: int)
    requires
        is_chain(graph, chain),
        0 <= from < to <= chain.len(),
    ensures
        is_chain(graph, chain.subrange(from, to)),
{
    let part = chain.subrange(from, to);
    assert forall|a: int| 0 <= a < part.len() implies (#[trigger] part[a]) < graph.len() by {
        assert(part[a] == chain[from + a]);
    }
    assert forall|a: int| 0 <= a < part.len() - 1 implies graph[(#[trigger] part[a])
        as int].contains(part[a + 1]) by {
        assert(part[a] == chain[from + a]);
        assert(part[a + 1] == chain[(from + a) + 1]);
    }
}

/// As many different libraries as the graph has, and no more.
proof fn lemma_counted(libraries: Seq<usize>, count: nat)
    requires
        libraries.no_duplicates(),
        forall|k: int| 0 <= k < libraries.len() ==> (#[trigger] libraries[k]) < count,
    ensures
        libraries.len() <= count,
{
    let numbers = libraries.map_values(|library: usize| library as int);
    assert(numbers.no_duplicates());
    numbers.unique_seq_to_set();
    let range = vstd::set_lib::set_int_range(0, count as int);
    vstd::set_lib::lemma_int_range(0, count as int);
    assert forall|number: int| numbers.to_set().contains(number) implies range.contains(
        number,
    ) by {
        let at = choose|at: int| 0 <= at < numbers.len() && numbers[at] == number;
        assert(libraries[at] < count);
    }
    assert(numbers.to_set().subset_of(range));
    vstd::set_lib::lemma_len_subset(numbers.to_set(), range);
}

/// A chain of dependencies does not come back to the library it began at, where
/// the plan holds that library once and its dependencies before it.
proof fn lemma_chain_steps_differ(
    graph: Seq<Seq<usize>>,
    plan: Seq<BuildStep>,
    chain: Seq<usize>,
    position: int,
)
    requires
        dependencies_first(graph, plan),
        plan.no_duplicates(),
        is_chain(graph, chain),
        chain.len() >= 2,
        0 <= position < plan.len(),
        plan[position] == (BuildStep::EnsureSources { library: chain[0] }),
    ensures
        chain.last() != chain[0],
{
    if chain.last() == chain[0] {
        lemma_dependencies_are_done_first(graph, plan, chain, position);
        let step = BuildStep::EnsureSources { library: chain[0] };
        let begun = plan.subrange(0, position);
        let earlier = choose|earlier: int| 0 <= earlier < begun.len() && begun[earlier] == step;
        assert(plan[earlier] == begun[earlier]);
        assert(plan[earlier] == plan[position]);
    }
}

/// Where there is a plan, no chain that begins at a requested library comes
/// back to a library that it has passed.
proof fn lemma_chains_do_not_return(
    graph: Seq<Seq<usize>>,
    requested: Seq<usize>,
    cached: Seq<usize>,
    plan: Seq<BuildStep>,
    chain: Seq<usize>,
    low: int,
    high: int,
)
    requires
        is_plan(graph, requested, cached, plan),
        is_chain(graph, chain),
        requested.contains(chain[0]),
        0 <= low < high < chain.len(),
    ensures
        chain[low] != chain[high],
{
    lemma_part_of_chain(graph, chain, 0, low + 1);
    let to_low = chain.subrange(0, low + 1);
    assert(to_low[0] == chain[0] && to_low.last() == chain[low]);
    assert(is_needed(graph, requested, chain[low]));
    lemma_plan_holds_what_is_needed(graph, requested, cached, plan, chain[low]);
    let step = BuildStep::EnsureSources { library: chain[low] };
    let position = choose|position: int| 0 <= position < plan.len() && plan[position] == step;
    lemma_part_of_chain(graph, chain, low, high + 1);
    let between = chain.subrange(low, high + 1);
    assert(between[0] == chain[low] && between.last() == chain[high]);
    lemma_chain_steps_differ(graph, plan, between, position);
}

/// Where there is a plan, the dependencies of the requested libraries end: no
/// chain that begins at a requested library is longer than the graph has
/// libraries. So a request has a plan or an endless chain, and never both.
pub proof fn lemma_plans_end(
    graph: Seq<Seq<usize>>,
    requested: Seq<usize>,
    cached: Seq<usize>,
    plan: Seq<BuildStep>,
)
    requires
        is_plan(graph, requested, cached, plan),
    ensures
        !has_endless_chain(graph, requested),
{
    if has_endless_chain(graph, requested) {
        let chain = choose|chain: Seq<usize>|
            #![trigger is_chain(graph, chain)]
            is_chain(graph, chain) && requested.contains(chain[0]) && chain.len() == graph.len()
                + 1;
        assert forall|a: int, b: int|
            0 <= a < chain.len() && 0 <= b < chain.len() && a != b implies chain[a]
            != chain[b] by {
            if a < b {
                lemma_chains_do_not_return(graph, requested, cached, plan, chain, a, b);
            } else {
                lemma_chains_do_not_return(graph, requested, cached, plan, chain, b, a);
            }
        }
        lemma_counted(chain, graph.len());
    }
}

/// Building twice compiles once: when the libraries that a plan compiles are in
/// the cache afterwards, and the cache has lost nothing, a plan for the same
/// request compiles nothing. In either plan no library is compiled twice.
pub proof fn lemma_second_build_compiles_nothing(
    graph: Seq<Seq<usize>>,
    requested: Seq<usize>,
    cached: Seq<usize>,
    plan: Seq<BuildStep>,
    cached_after: Seq<usize>,
    again: Seq<BuildStep>,
)
    requires
        is_plan(graph, requested, cached, plan),
        forall|library: usize|
            cached.contains(library) || plan.contains(BuildStep::Compile { library })
                ==> #[trigger] cached_after.contains(library),
        is_plan(graph, requested, cached_after, again),
    ensures
        forall|position: int|
            0 <= position < again.len() ==> (#[trigger] again[position]) is EnsureSources,
        plan.no_duplicates(),
        again.no_duplicates(),
{
    assert forall|position: int| 0 <= position < again.len() implies (#[trigger] again[position])
        is EnsureSources by {
        if again[position] is Compile {
            let library = again[position].of();
            assert(is_needed(graph, requested, library));
            lemma_plan_holds_what_is_needed(graph, requested, cached, plan, library);
            let at = choose|at: int|
                0 <= at < plan.len() && plan[at] == (BuildStep::EnsureSources { library });
            assert(plan[at] is EnsureSources);
            if !cached.contains(library) {
                assert(plan[at + 1] == (BuildStep::Compile { library }));
                assert(plan.contains(BuildStep::Compile { library }));
            }
            assert(cached_after.contains(library));
        }
    }
}

/// Whether `list` holds `library`.
pub fn holds(list: &Vec<usize>, library: usize) -> (found: bool)
    ensures
        found == list@.contains(library),
{
    let mut i: usize = 0;
    while i < list.len()
        invariant
            i <= list.len(),
            forall|j: int| 0 <= j < i ==> list@[j] != library,
        decreases list.len() - i,
    {
        if list[i] == library {
            return true;
        }
        i = i + 1;
    }
    false
}

} // verus!
