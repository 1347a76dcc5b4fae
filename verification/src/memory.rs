//! Registry of memory backend factories, looked up by name without regard
//! to ASCII case.

use vstd::prelude::*;
use crate::providers::{created_by, RegistryError};
use crate::text::{ascii_lower, opt_str_view, result_agrees, to_ascii_lowercase, to_string};

verus! {

/// Information about a registered memory backend.
#[derive(Debug, Clone)]
pub struct MemoryBackendInfo {
    /// Backend name (e.g., "sqlite", "markdown", "postgres").
    pub name: String,
    /// Human-readable description.
    pub description: String,
    /// Whether this backend requires external services (e.g., database).
    pub requires_external: bool,
}

pub struct MemoryBackendInfoView {
    pub name: Seq<char>,
    pub description: Seq<char>,
    pub requires_external: bool,
}

impl View for MemoryBackendInfo {
    type V = MemoryBackendInfoView;

    open spec fn view(&self) -> MemoryBackendInfoView {
        MemoryBackendInfoView {
            name: self.name@,
            description: self.description@,
            requires_external: self.requires_external,
        }
    }
}

/// Factory for memory backend instances, implemented by each backend.
///
/// A factory whose `obeys_factory_spec` is true promises that its methods
/// return what the spec functions say; by default a factory promises
/// nothing of them.
pub trait MemoryFactory {
    /// The memory instance this factory builds.
    type Memory;

    /// Whether this factory's methods follow the spec functions.
    open spec fn obeys_factory_spec(&self) -> bool {
        false
    }

    /// The name this factory reports, when it obeys its spec.
    open spec fn spec_name(&self) -> Seq<char> {
        Seq::empty()
    }

    /// The description this factory reports, when it obeys its spec.
    open spec fn spec_description(&self) -> Seq<char> {
        Seq::empty()
    }

    /// Whether this factory reports that it needs external services, when
    /// it obeys its spec.
    open spec fn spec_requires_external(&self) -> bool {
        false
    }

    /// What `create` gives for this workspace directory and key, when the
    /// factory obeys its spec.
    open spec fn spec_create(&self, workspace_dir: Seq<char>, api_key: Option<Seq<char>>) -> Result<
        Self::Memory,
        Seq<char>,
    > {
        Err(Seq::empty())
    }

    /// Canonical name of this memory backend.
    fn name(&self) -> (r: &str)
        ensures
            self.obeys_factory_spec() ==> r@ == self.spec_name(),
    ;

    /// Human-readable description (empty for a backend with nothing to say).
    fn description(&self) -> (r: &str)
        ensures
            self.obeys_factory_spec() ==> r@ == self.spec_description(),
    ;

    /// Whether this backend requires external services.
    fn requires_external(&self) -> (r: bool)
        ensures
            self.obeys_factory_spec() ==> r == self.spec_requires_external(),
    ;

    /// Create a memory instance for the given workspace directory.
    fn create(&self, workspace_dir: &str, api_key: Option<&str>) -> (r: Result<Self::Memory, String>)
        ensures
            self.obeys_factory_spec() ==> result_agrees(
                r,
                self.spec_create(workspace_dir@, opt_str_view(api_key)),
            ),
    ;
}

/// What a factory that obeys its spec reports of itself.
pub open spec fn reported_backend_info<F: MemoryFactory>(f: F) -> MemoryBackendInfoView {
    MemoryBackendInfoView {
        name: f.spec_name(),
        description: f.spec_description(),
        requires_external: f.spec_requires_external(),
    }
}

/// Whether a backend described by `info` answers to `query`: its name
/// equals `query` when ASCII case is ignored.
pub open spec fn backend_matches(info: MemoryBackendInfoView, query: Seq<char>) -> bool {
    ascii_lower(info.name) == ascii_lower(query)
}

/// Whether a factory answers to `query` by the name it reports when it
/// obeys its spec.
pub open spec fn backend_factory_matches<F: MemoryFactory>(f: F, query: Seq<char>) -> bool {
    backend_matches(reported_backend_info(f), query)
}

/// Every factory of `fs` obeys its spec.
pub open spec fn all_backends_obey<F: MemoryFactory>(fs: Seq<F>) -> bool {
    forall|i: int| 0 <= i < fs.len() ==> (#[trigger] fs[i]).obeys_factory_spec()
}

/// Every factory of `fs` up to and including index `i` obeys its spec.
pub open spec fn backends_obey_up_to<F: MemoryFactory>(fs: Seq<F>, i: int) -> bool {
    forall|j: int| 0 <= j <= i ==> (#[trigger] fs[j]).obeys_factory_spec()
}

/// Whether some factory of `fs` answers to `query`.
pub open spec fn some_backend_matches<F: MemoryFactory>(fs: Seq<F>, query: Seq<char>) -> bool {
    exists|i: int| 0 <= i < fs.len() && backend_factory_matches(#[trigger] fs[i], query)
}

/// `i` is the first index of `fs` whose factory answers to `query`.
pub open spec fn first_backend_match<F: MemoryFactory>(fs: Seq<F>, query: Seq<char>, i: int) -> bool {
    &&& 0 <= i < fs.len()
    &&& backend_factory_matches(fs[i], query)
    &&& forall|j: int| 0 <= j < i ==> !backend_factory_matches(#[trigger] fs[j], query)
}

/// `k` is where a lookup of `query` stops, as far as the factories' specs
/// show: the factory at `k` answers if it obeys its spec, and no factory
/// before it that obeys its spec answers.
pub open spec fn backend_lookup_stops_at<F: MemoryFactory>(fs: Seq<F>, query: Seq<char>, k: int) -> bool {
    &&& 0 <= k < fs.len()
    &&& fs[k].obeys_factory_spec() ==> backend_factory_matches(fs[k], query)
    &&& forall|j: int|
        0 <= j < k && (#[trigger] fs[j]).obeys_factory_spec() ==> !backend_factory_matches(fs[j], query)
}

proof fn lemma_backend_lookup_stops_at_first<F: MemoryFactory>(fs: Seq<F>, query: Seq<char>, k: int, i: int)
    requires
        backend_lookup_stops_at(fs, query, k),
        first_backend_match(fs, query, i),
        backends_obey_up_to(fs, i),
    ensures
        k == i,
{
    if k < i {
        assert(fs[k].obeys_factory_spec());
        assert(!backend_factory_matches(fs[k], query));
    } else if i < k {
        assert(fs[i].obeys_factory_spec());
    }
}

/// Registry of memory backend factories, in the order they were registered.
/// Lookups and listings ask each factory for its name, description and
/// external-service flag.
pub struct MemoryRegistry<F> {
    factories: Vec<F>,
}

impl<F: MemoryFactory> View for MemoryRegistry<F> {
    type V = Seq<F>;

    closed spec fn view(&self) -> Seq<F> {
        self.factories@
    }
}

impl<F: MemoryFactory> MemoryRegistry<F> {
    /// Create an empty registry.
    pub fn new() -> (r: Self)
        ensures
            r@ == Seq::<F>::empty(),
    {
        MemoryRegistry { factories: Vec::new() }
    }

    /// Register a new memory backend factory, after those already
    /// registered.
    pub fn register(&mut self, factory: F)
        ensures
            final(self)@ == old(self)@.push(factory),
    {
        self.factories.push(factory);
    }

    /// Look up a factory by name, ignoring ASCII case: the first registered
    /// factory whose name equals `name` that way, or `None`.
    pub fn get_factory(&self, name: &str) -> (r: Option<&F>)
        ensures
            r is None ==> forall|i: int|
                0 <= i < self@.len() && (#[trigger] self@[i]).obeys_factory_spec()
                    ==> !backend_factory_matches(self@[i], name@),
            r matches Some(f) ==> exists|k: int|
                backend_lookup_stops_at(self@, name@, k) && *f == #[trigger] self@[k],
            all_backends_obey(self@) ==> (r is None <==> !some_backend_matches(self@, name@)),
            all_backends_obey(self@) ==> (r matches Some(f) ==> exists|i: int|
                first_backend_match(self@, name@, i) && *f == #[trigger] self@[i]),
            r matches Some(f) ==> (f.obeys_factory_spec() ==> ascii_lower(f.spec_name())
                == ascii_lower(name@)),
    {
        let lower = to_ascii_lowercase(name);
        let mut i: usize = 0;
        while i < self.factories.len()
            invariant
                i <= self.factories@.len(),
                lower@ == ascii_lower(name@),
                forall|j: int|
                    0 <= j < i && (#[trigger] self@[j]).obeys_factory_spec()
                        ==> !backend_factory_matches(self@[j], name@),
            decreases self.factories@.len() - i,
        {
            let candidate = to_ascii_lowercase(self.factories[i].name());
            if candidate == lower {
                assert(backend_lookup_stops_at(self@, name@, i as int));
                proof {
                    if all_backends_obey(self@) {
                        assert(first_backend_match(self@, name@, i as int));
                    }
                }
                return Some(&self.factories[i]);
            }
            i = i + 1;
        }
        None
    }

    /// Create a memory backend by name. When no factory answers to `name`,
    /// the result is `UnknownMemoryBackend(name)`; otherwise the first factory
    /// that answers creates it, and its failure becomes `Factory(message)`.
    pub fn create_memory(&self, name: &str, workspace_dir: &str, api_key: Option<&str>) -> (r:
        Result<F::Memory, RegistryError>)
        ensures
            r matches Err(RegistryError::UnknownMemoryBackend(n)) ==> n@ == name@ && forall|i: int|
                0 <= i < self@.len() && (#[trigger] self@[i]).obeys_factory_spec()
                    ==> !backend_factory_matches(self@[i], name@),
            !(r matches Err(RegistryError::UnknownMemoryBackend(_))) ==> exists|k: int|
                backend_lookup_stops_at(self@, name@, k) && ((#[trigger] self@[k]).obeys_factory_spec()
                    ==> created_by(r, self@[k].spec_create(workspace_dir@, opt_str_view(api_key)))),
            all_backends_obey(self@) ==> ((r matches Err(RegistryError::UnknownMemoryBackend(_)))
                <==> !some_backend_matches(self@, name@)),
            forall|i: int|
                first_backend_match(self@, name@, i) && backends_obey_up_to(self@, i)
                    ==> created_by(r, (#[trigger] self@[i]).spec_create(workspace_dir@, opt_str_view(api_key))),
    {
        match self.get_factory(name) {
            None => Err(RegistryError::UnknownMemoryBackend(to_string(name))),
            Some(factory) => {
                let ghost f = *factory;
                let r = match factory.create(workspace_dir, api_key) {
                    Ok(m) => Ok(m),
                    Err(e) => Err(RegistryError::Factory(e)),
                };
                proof {
                    let k = choose|k: int| backend_lookup_stops_at(self@, name@, k) && f == #[trigger] self@[k];
                    assert(backend_lookup_stops_at(self@, name@, k) && f == self@[k]);
                    assert forall|i: int|
                        first_backend_match(self@, name@, i) && backends_obey_up_to(self@, i)
                            implies created_by(r, (#[trigger] self@[i]).spec_create(workspace_dir@, opt_str_view(api_key))) by {
                        lemma_backend_lookup_stops_at_first(self@, name@, k, i);
                    }
                }
                r
            },
        }
    }

    /// List all registered memory backends, in registration order, asking
    /// each factory for its name, description and flag.
    pub fn list_backends(&self) -> (r: Vec<MemoryBackendInfo>)
        ensures
            r@.len() == self@.len(),
            forall|i: int|
                0 <= i < r@.len() && (#[trigger] self@[i]).obeys_factory_spec() ==> r@[i]@
                    == reported_backend_info(self@[i]),
    {
        let mut out: Vec<MemoryBackendInfo> = Vec::new();
        let mut i: usize = 0;
        while i < self.factories.len()
            invariant
                i <= self.factories@.len(),
                out@.len() == i,
                forall|k: int|
                    0 <= k < i && (#[trigger] self@[k]).obeys_factory_spec() ==> out@[k]@
                        == reported_backend_info(self@[k]),
            decreases self.factories@.len() - i,
        {
            let f = &self.factories[i];
            let info = MemoryBackendInfo {
                name: to_string(f.name()),
                description: to_string(f.description()),
                requires_external: f.requires_external(),
            };
            out.push(info);
            i = i + 1;
        }
        out
    }

    /// Number of registered factories.
    pub fn count(&self) -> (r: usize)
        ensures
            r == self@.len(),
    {
        self.factories.len()
    }
}

/// Law: a registered backend factory that obeys its spec is found by its
/// own name, whatever its ASCII case.
pub proof fn law_registered_backend_resolves<F: MemoryFactory>(
    registered: Seq<F>,
    factory: F,
    query: Seq<char>,
)
    requires
        ascii_lower(query) == ascii_lower(factory.spec_name()),
    ensures
        some_backend_matches(registered.push(factory), query),
{
    let all = registered.push(factory);
    assert(all[registered.len() as int] == factory);
    assert(backend_factory_matches(all[registered.len() as int], query));
}

/// Law: registering another backend factory does not change which factory
/// answers to a name that already resolved; earlier registrations win.
pub proof fn law_earlier_backend_wins<F: MemoryFactory>(
    registered: Seq<F>,
    factory: F,
    query: Seq<char>,
    i: int,
)
    requires
        first_backend_match(registered, query, i),
    ensures
        first_backend_match(registered.push(factory), query, i),
        registered.push(factory)[i] == registered[i],
{
    assert forall|j: int| 0 <= j < i implies !backend_factory_matches(
        #[trigger] registered.push(factory)[j],
        query,
    ) by {
        assert(registered.push(factory)[j] == registered[j]);
    }
}

} // verus!
