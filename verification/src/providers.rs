//! Registry of provider factories, looked up by name or alias without
//! regard to ASCII case.

use vstd::prelude::*;
use crate::text::{
    ascii_lower, join, opt_str_view, result_agrees, strings_view, to_ascii_lowercase, to_string,
};

verus! {

/// Information about a registered provider.
#[derive(Debug, Clone)]
pub struct ProviderInfo {
    /// Canonical provider name (e.g., "openai", "anthropic").
    pub name: String,
    /// Alternative names that resolve to this provider.
    pub aliases: Vec<String>,
    /// Human-readable description.
    pub description: String,
}

pub struct ProviderInfoView {
    pub name: Seq<char>,
    pub aliases: Seq<Seq<char>>,
    pub description: Seq<char>,
}

impl View for ProviderInfo {
    type V = ProviderInfoView;

    open spec fn view(&self) -> ProviderInfoView {
        ProviderInfoView {
            name: self.name@,
            aliases: strings_view(self.aliases@),
            description: self.description@,
        }
    }
}

/// Factory for provider instances, implemented by each provider backend.
///
/// A factory whose `obeys_factory_spec` is true promises that its methods
/// return what the spec functions say; by default a factory promises
/// nothing of them.
pub trait ProviderFactory {
    /// The provider this factory builds.
    type Provider;

    /// Whether this factory's methods follow the spec functions.
    open spec fn obeys_factory_spec(&self) -> bool {
        false
    }

    /// The name this factory reports, when it obeys its spec.
    open spec fn spec_name(&self) -> Seq<char> {
        Seq::empty()
    }

    /// The aliases this factory reports, when it obeys its spec.
    open spec fn spec_aliases(&self) -> Seq<Seq<char>> {
        Seq::empty()
    }

    /// The description this factory reports, when it obeys its spec.
    open spec fn spec_description(&self) -> Seq<char> {
        Seq::empty()
    }

    /// What `create` gives for this key and base URL, when the factory obeys
    /// its spec.
    open spec fn spec_create(&self, api_key: Seq<char>, base_url: Option<Seq<char>>) -> Result<
        Self::Provider,
        Seq<char>,
    > {
        Err(Seq::empty())
    }

    /// Canonical name of this provider (e.g., "openai").
    fn name(&self) -> (r: &str)
        ensures
            self.obeys_factory_spec() ==> r@ == self.spec_name(),
    ;

    /// Alternative names that resolve to this provider.
    fn aliases(&self) -> (r: Vec<String>)
        ensures
            self.obeys_factory_spec() ==> strings_view(r@) == self.spec_aliases(),
    ;

    /// Human-readable description.
    fn description(&self) -> (r: &str)
        ensures
            self.obeys_factory_spec() ==> r@ == self.spec_description(),
    ;

    /// Create a provider instance with the given API key and optional base URL.
    fn create(&self, api_key: &str, base_url: Option<&str>) -> (r: Result<Self::Provider, String>)
        ensures
            self.obeys_factory_spec() ==> result_agrees(
                r,
                self.spec_create(api_key@, opt_str_view(base_url)),
            ),
    ;
}

/// What a factory that obeys its spec reports of itself.
pub open spec fn reported_info<F: ProviderFactory>(f: F) -> ProviderInfoView {
    ProviderInfoView { name: f.spec_name(), aliases: f.spec_aliases(), description: f.spec_description() }
}

/// Why a registry could not hand out what was asked of it.
#[derive(Debug, Clone)]
pub enum RegistryError {
    /// No provider factory answers to this name.
    UnknownProvider(String),
    /// No memory backend factory answers to this name.
    UnknownMemoryBackend(String),
    /// The factory that was found failed, with this message.
    Factory(String),
}

/// The text of a registry error.
pub open spec fn error_message(e: RegistryError) -> Seq<char> {
    match e {
        RegistryError::UnknownProvider(n) => "Unknown provider: "@ + n@,
        RegistryError::UnknownMemoryBackend(n) => "Unknown memory backend: "@ + n@,
        RegistryError::Factory(m) => m@,
    }
}

/// The registry's answer when the factory's `create` gives `expected`: its
/// provider, or its error wrapped as `Factory`.
pub open spec fn created_by<P>(r: Result<P, RegistryError>, expected: Result<P, Seq<char>>) -> bool {
    match expected {
        Ok(p) => r == Ok::<P, RegistryError>(p),
        Err(m) => r matches Err(RegistryError::Factory(e)) && e@ == m,
    }
}

impl RegistryError {
    /// The error's text, e.g. "Unknown provider: nonexistent".
    pub fn message(&self) -> (r: String)
        ensures
            r@ == error_message(*self),
    {
        match self {
            RegistryError::UnknownProvider(n) => join("Unknown provider: ", n.as_str()),
            RegistryError::UnknownMemoryBackend(n) => join(
                "Unknown memory backend: ",
                n.as_str(),
            ),
            RegistryError::Factory(m) => m.clone(),
        }
    }
}

/// Whether a provider described by `info` answers to `query`: its name or
/// one of its aliases equals `query` when ASCII case is ignored.
pub open spec fn provider_matches(info: ProviderInfoView, query: Seq<char>) -> bool {
    ||| ascii_lower(info.name) == ascii_lower(query)
    ||| exists|j: int|
        0 <= j < info.aliases.len() && ascii_lower(#[trigger] info.aliases[j]) == ascii_lower(query)
}

/// Whether a factory answers to `query` by what it reports when it obeys its
/// spec.
pub open spec fn factory_matches<F: ProviderFactory>(f: F, query: Seq<char>) -> bool {
    provider_matches(reported_info(f), query)
}

/// Every factory of `fs` obeys its spec.
pub open spec fn all_factories_obey<F: ProviderFactory>(fs: Seq<F>) -> bool {
    forall|i: int| 0 <= i < fs.len() ==> (#[trigger] fs[i]).obeys_factory_spec()
}

/// Every factory of `fs` up to and including index `i` obeys its spec.
pub open spec fn factories_obey_up_to<F: ProviderFactory>(fs: Seq<F>, i: int) -> bool {
    forall|j: int| 0 <= j <= i ==> (#[trigger] fs[j]).obeys_factory_spec()
}

/// Whether some factory of `fs` answers to `query`.
pub open spec fn some_provider_matches<F: ProviderFactory>(fs: Seq<F>, query: Seq<char>) -> bool {
    exists|i: int| 0 <= i < fs.len() && factory_matches(#[trigger] fs[i], query)
}

/// `i` is the first index of `fs` whose factory answers to `query`.
pub open spec fn first_provider_match<F: ProviderFactory>(fs: Seq<F>, query: Seq<char>, i: int) -> bool {
    &&& 0 <= i < fs.len()
    &&& factory_matches(fs[i], query)
    &&& forall|j: int| 0 <= j < i ==> !factory_matches(#[trigger] fs[j], query)
}

/// `k` is where a lookup of `query` stops, as far as the factories' specs
/// show: the factory at `k` answers if it obeys its spec, and no factory
/// before it that obeys its spec answers.
pub open spec fn lookup_stops_at<F: ProviderFactory>(fs: Seq<F>, query: Seq<char>, k: int) -> bool {
    &&& 0 <= k < fs.len()
    &&& fs[k].obeys_factory_spec() ==> factory_matches(fs[k], query)
    &&& forall|j: int|
        0 <= j < k && (#[trigger] fs[j]).obeys_factory_spec() ==> !factory_matches(fs[j], query)
}

/// When the factories up to `i` obey their specs and `i` is the first that
/// answers, a lookup that stops at `k` stops at `i`.
proof fn lemma_lookup_stops_at_first<F: ProviderFactory>(fs: Seq<F>, query: Seq<char>, k: int, i: int)
    requires
        lookup_stops_at(fs, query, k),
        first_provider_match(fs, query, i),
        factories_obey_up_to(fs, i),
    ensures
        k == i,
{
    if k < i {
        assert(fs[k].obeys_factory_spec());
        assert(!factory_matches(fs[k], query));
    } else if i < k {
        assert(fs[i].obeys_factory_spec());
    }
}

/// Registry of provider factories, in the order they were registered.
/// Lookups and listings ask each factory for its name, aliases and
/// description.
pub struct ProviderRegistry<F> {
    factories: Vec<F>,
}

impl<F: ProviderFactory> View for ProviderRegistry<F> {
    type V = Seq<F>;

    closed spec fn view(&self) -> Seq<F> {
        self.factories@
    }
}

impl<F: ProviderFactory> ProviderRegistry<F> {
    /// Create an empty registry.
    pub fn new() -> (r: Self)
        ensures
            r@ == Seq::<F>::empty(),
    {
        ProviderRegistry { factories: Vec::new() }
    }

    /// Register a new provider factory, after those already registered.
    pub fn register(&mut self, factory: F)
        ensures
            final(self)@ == old(self)@.push(factory),
    {
        self.factories.push(factory);
    }

    /// Whether `factory` answers to the query whose ASCII lower case is
    /// `lower`, asking it for its name and aliases.
    fn matches(factory: &F, lower: &String) -> (r: bool)
        ensures
            factory.obeys_factory_spec() ==> r == (ascii_lower(factory.spec_name()) == lower@
                || exists|j: int|
                0 <= j < factory.spec_aliases().len() && ascii_lower(
                    #[trigger] factory.spec_aliases()[j],
                ) == lower@),
    {
        let name = to_ascii_lowercase(factory.name());
        if name == *lower {
            return true;
        }
        let aliases = factory.aliases();
        let mut k: usize = 0;
        while k < aliases.len()
            invariant
                k <= aliases@.len(),
                factory.obeys_factory_spec() ==> strings_view(aliases@) == factory.spec_aliases(),
                factory.obeys_factory_spec() ==> ascii_lower(factory.spec_name()) != lower@,
                forall|j: int| 0 <= j < k ==> ascii_lower(#[trigger] aliases@[j]@) != lower@,
            decreases aliases@.len() - k,
        {
            let a = to_ascii_lowercase(aliases[k].as_str());
            if a == *lower {
                proof {
                    if factory.obeys_factory_spec() {
                        assert(factory.spec_aliases()[k as int] == aliases@[k as int]@);
                    }
                }
                return true;
            }
            k = k + 1;
        }
        proof {
            if factory.obeys_factory_spec() {
                assert forall|j: int| 0 <= j < factory.spec_aliases().len() implies ascii_lower(
                    #[trigger] factory.spec_aliases()[j],
                ) != lower@ by {
                    assert(factory.spec_aliases()[j] == aliases@[j]@);
                }
            }
        }
        false
    }

    /// Look up a factory by name or alias, ignoring ASCII case: the first
    /// registered factory whose name or one of whose aliases equals `name`
    /// that way, or `None` when there is none.
    pub fn get_factory(&self, name: &str) -> (r: Option<&F>)
        ensures
            r is None ==> forall|i: int|
                0 <= i < self@.len() && (#[trigger] self@[i]).obeys_factory_spec()
                    ==> !factory_matches(self@[i], name@),
            r matches Some(f) ==> exists|k: int|
                lookup_stops_at(self@, name@, k) && *f == #[trigger] self@[k],
            all_factories_obey(self@) ==> (r is None <==> !some_provider_matches(self@, name@)),
            all_factories_obey(self@) ==> (r matches Some(f) ==> exists|i: int|
                first_provider_match(self@, name@, i) && *f == #[trigger] self@[i]),
            r matches Some(f) ==> (f.obeys_factory_spec() ==> (ascii_lower(f.spec_name())
                == ascii_lower(name@) || exists|j: int|
                0 <= j < f.spec_aliases().len() && ascii_lower(#[trigger] f.spec_aliases()[j])
                    == ascii_lower(name@))),
    {
        let lower = to_ascii_lowercase(name);
        let mut i: usize = 0;
        while i < self.factories.len()
            invariant
                i <= self.factories@.len(),
                lower@ == ascii_lower(name@),
                forall|j: int|
                    0 <= j < i && (#[trigger] self@[j]).obeys_factory_spec() ==> !factory_matches(
                        self@[j],
                        name@,
                    ),
            decreases self.factories@.len() - i,
        {
            if Self::matches(&self.factories[i], &lower) {
                proof {
                    let f = self@[i as int];
                    if f.obeys_factory_spec() && ascii_lower(f.spec_name()) != lower@ {
                        let j = choose|j: int|
                            0 <= j < f.spec_aliases().len() && ascii_lower(
                                #[trigger] f.spec_aliases()[j],
                            ) == lower@;
                        assert(ascii_lower(reported_info(f).aliases[j]) == ascii_lower(name@));
                    }
                }
                assert(lookup_stops_at(self@, name@, i as int));
                proof {
                    if self@[i as int].obeys_factory_spec() {
                        law_match_is_exact(self@[i as int], name@);
                    }
                    if all_factories_obey(self@) {
                        assert(first_provider_match(self@, name@, i as int));
                    }
                }
                return Some(&self.factories[i]);
            }
            i = i + 1;
        }
        None
    }

    /// Create a provider by name or alias with the given API key and optional
    /// base URL. When no factory answers to `name`, the result is
    /// `UnknownProvider(name)`; otherwise the first factory that answers
    /// creates it, and its failure becomes `Factory(message)`.
    pub fn create_provider(&self, name: &str, api_key: &str, base_url: Option<&str>) -> (r: Result<
        F::Provider,
        RegistryError,
    >)
        ensures
            r matches Err(RegistryError::UnknownProvider(n)) ==> n@ == name@ && forall|i: int|
                0 <= i < self@.len() && (#[trigger] self@[i]).obeys_factory_spec()
                    ==> !factory_matches(self@[i], name@),
            !(r matches Err(RegistryError::UnknownProvider(_))) ==> exists|k: int|
                lookup_stops_at(self@, name@, k) && ((#[trigger] self@[k]).obeys_factory_spec()
                    ==> created_by(r, self@[k].spec_create(api_key@, opt_str_view(base_url)))),
            all_factories_obey(self@) ==> ((r matches Err(RegistryError::UnknownProvider(_)))
                <==> !some_provider_matches(self@, name@)),
            forall|i: int|
                first_provider_match(self@, name@, i) && factories_obey_up_to(self@, i)
                    ==> created_by(r, (#[trigger] self@[i]).spec_create(api_key@, opt_str_view(base_url))),
            !(r matches Err(RegistryError::UnknownProvider(_))) ==> exists|k: int|
                0 <= k < self@.len() && ((#[trigger] self@[k]).obeys_factory_spec() ==> (
                ascii_lower(self@[k].spec_name()) == ascii_lower(name@) || exists|j: int|
                    0 <= j < self@[k].spec_aliases().len() && ascii_lower(
                        #[trigger] self@[k].spec_aliases()[j],
                    ) == ascii_lower(name@))),
    {
        match self.get_factory(name) {
            None => Err(RegistryError::UnknownProvider(to_string(name))),
            Some(factory) => {
                let ghost f = *factory;
                let r = match factory.create(api_key, base_url) {
                    Ok(p) => Ok(p),
                    Err(e) => Err(RegistryError::Factory(e)),
                };
                proof {
                    let k = choose|k: int| lookup_stops_at(self@, name@, k) && f == #[trigger] self@[k];
                    assert(lookup_stops_at(self@, name@, k) && f == self@[k]);
                    if f.obeys_factory_spec() {
                        law_match_is_exact(f, name@);
                    }
                    assert forall|i: int|
                        first_provider_match(self@, name@, i) && factories_obey_up_to(self@, i)
                            implies created_by(r, (#[trigger] self@[i]).spec_create(api_key@, opt_str_view(base_url))) by {
                        lemma_lookup_stops_at_first(self@, name@, k, i);
                    }
                }
                r
            },
        }
    }

    /// List all registered providers, in registration order, asking each
    /// factory for its name, aliases and description.
    pub fn list_providers(&self) -> (r: Vec<ProviderInfo>)
        ensures
            r@.len() == self@.len(),
            forall|i: int|
                0 <= i < r@.len() && (#[trigger] self@[i]).obeys_factory_spec() ==> r@[i]@
                    == reported_info(self@[i]),
    {
        let mut out: Vec<ProviderInfo> = Vec::new();
        let mut i: usize = 0;
        while i < self.factories.len()
            invariant
                i <= self.factories@.len(),
                out@.len() == i,
                forall|k: int|
                    0 <= k < i && (#[trigger] self@[k]).obeys_factory_spec() ==> out@[k]@
                        == reported_info(self@[k]),
            decreases self.factories@.len() - i,
        {
            let f = &self.factories[i];
            let info = ProviderInfo {
                name: to_string(f.name()),
                aliases: f.aliases(),
                description: to_string(f.description()),
            };
            out.push(info);
            i = i + 1;
        }
        out
    }

    /// Number of registered factories.
    pub fn count(&self) -> (r: usize)
        ensures
            r == self@.len(),
    {
        self.factories.len()
    }
}

/// Law: a registered factory that obeys its spec is found by its own name
/// and by each of its aliases, whatever their ASCII case.
pub proof fn law_registered_factory_resolves<F: ProviderFactory>(
    registered: Seq<F>,
    factory: F,
    query: Seq<char>,
)
    requires
        ascii_lower(query) == ascii_lower(factory.spec_name()) || exists|j: int|
            0 <= j < factory.spec_aliases().len() && ascii_lower(#[trigger] factory.spec_aliases()[j])
                == ascii_lower(query),
    ensures
        some_provider_matches(registered.push(factory), query),
{
    let all = registered.push(factory);
    assert(all[registered.len() as int] == factory);
    if ascii_lower(query) != ascii_lower(factory.spec_name()) {
        let j = choose|j: int|
            0 <= j < factory.spec_aliases().len() && ascii_lower(#[trigger] factory.spec_aliases()[j])
                == ascii_lower(query);
        assert(ascii_lower(reported_info(factory).aliases[j]) == ascii_lower(query));
    }
    assert(factory_matches(all[registered.len() as int], query));
}

/// Law: registering another factory does not change which factory answers
/// to a name that already resolved; earlier registrations win.
pub proof fn law_earlier_registration_wins<F: ProviderFactory>(
    registered: Seq<F>,
    factory: F,
    query: Seq<char>,
    i: int,
)
    requires
        first_provider_match(registered, query, i),
    ensures
        first_provider_match(registered.push(factory), query, i),
        registered.push(factory)[i] == registered[i],
{
    assert forall|j: int| 0 <= j < i implies !factory_matches(
        #[trigger] registered.push(factory)[j],
        query,
    ) by {
        assert(registered.push(factory)[j] == registered[j]);
    }
}

/// Law: a factory answers to a query only when the query equals its name or
/// one of its aliases once both are in ASCII lower case; a query that is
/// only part of a name (a prefix, say) does not answer.
pub proof fn law_match_is_exact<F: ProviderFactory>(f: F, query: Seq<char>)
    requires
        factory_matches(f, query),
    ensures
        ascii_lower(f.spec_name()) == ascii_lower(query) || exists|j: int|
            0 <= j < f.spec_aliases().len() && ascii_lower(#[trigger] f.spec_aliases()[j])
                == ascii_lower(query),
{
    if ascii_lower(f.spec_name()) != ascii_lower(query) {
        let j = choose|j: int|
            0 <= j < reported_info(f).aliases.len() && ascii_lower(
                #[trigger] reported_info(f).aliases[j],
            ) == ascii_lower(query);
        assert(ascii_lower(f.spec_aliases()[j]) == ascii_lower(query));
    }
}

} // verus!
