//! Plugins and the registry that runs their registration and activation.
//!
//! A plugin registers tools, hooks and provider factories through a
//! [`PluginApi`]; [`DefaultPluginApi`] collects them for later wiring.

use vstd::prelude::*;
use crate::text::{result_agrees, to_string};

verus! {

/// Information about a registered plugin.
#[derive(Debug, Clone)]
pub struct PluginInfo {
    /// Unique plugin identifier.
    pub id: String,
    /// Human-readable name.
    pub name: String,
    /// Semantic version string.
    pub version: String,
    /// Short description.
    pub description: String,
}

pub struct PluginInfoView {
    pub id: Seq<char>,
    pub name: Seq<char>,
    pub version: Seq<char>,
    pub description: Seq<char>,
}

impl View for PluginInfo {
    type V = PluginInfoView;

    open spec fn view(&self) -> PluginInfoView {
        PluginInfoView {
            id: self.id@,
            name: self.name@,
            version: self.version@,
            description: self.description@,
        }
    }
}

/// API surface available to plugins during registration.
///
/// What an API holds is given by its spec functions; each registration
/// appends to one of them and leaves the others as they were.
pub trait PluginApi {
    type Tool;

    type Hook;

    type Factory;

    /// The tools registered so far, in order.
    spec fn spec_tools(&self) -> Seq<Self::Tool>;

    /// The hooks registered so far, in order.
    spec fn spec_hooks(&self) -> Seq<Self::Hook>;

    /// The provider factories registered so far, in order.
    spec fn spec_factories(&self) -> Seq<Self::Factory>;

    /// Register a tool implementation.
    fn register_tool(&mut self, tool: Self::Tool)
        ensures
            final(self).spec_tools() == old(self).spec_tools().push(tool),
            final(self).spec_hooks() == old(self).spec_hooks(),
            final(self).spec_factories() == old(self).spec_factories(),
    ;

    /// Register a hook handler for lifecycle events.
    fn register_hook(&mut self, handler: Self::Hook)
        ensures
            final(self).spec_hooks() == old(self).spec_hooks().push(handler),
            final(self).spec_tools() == old(self).spec_tools(),
            final(self).spec_factories() == old(self).spec_factories(),
    ;

    /// Register a provider factory for provider discovery.
    fn register_provider_factory(&mut self, factory: Self::Factory)
        ensures
            final(self).spec_factories() == old(self).spec_factories().push(factory),
            final(self).spec_tools() == old(self).spec_tools(),
            final(self).spec_hooks() == old(self).spec_hooks(),
    ;
}

/// Core plugin trait, implemented by each plugin.
///
/// A plugin goes through two phases: registration, where it registers its
/// tools, hooks and provider factories through a [`PluginApi`], and
/// activation, once every plugin has registered.
///
/// A plugin whose `obeys_plugin_spec` is true promises that its methods
/// do what the spec functions say; by default a plugin promises nothing of
/// them.
pub trait Plugin {
    type Tool;

    type Hook;

    type Factory;

    /// Whether this plugin's methods follow the spec functions.
    open spec fn obeys_plugin_spec(&self) -> bool {
        false
    }

    /// The id this plugin reports, when it obeys its spec.
    open spec fn spec_id(&self) -> Seq<char> {
        Seq::empty()
    }

    /// The name this plugin reports, when it obeys its spec.
    open spec fn spec_name(&self) -> Seq<char> {
        Seq::empty()
    }

    /// The version this plugin reports, when it obeys its spec.
    open spec fn spec_version(&self) -> Seq<char> {
        Seq::empty()
    }

    /// The description this plugin reports, when it obeys its spec.
    open spec fn spec_description(&self) -> Seq<char> {
        Seq::empty()
    }

    /// How `register` ends, when the plugin obeys its spec.
    open spec fn spec_register_result(&self) -> Result<(), Seq<char>> {
        Ok(())
    }

    /// The tools `register` adds when it succeeds, when the plugin obeys
    /// its spec.
    open spec fn spec_contributed_tools(&self) -> Seq<Self::Tool> {
        Seq::empty()
    }

    /// The hooks `register` adds when it succeeds, when the plugin obeys
    /// its spec.
    open spec fn spec_contributed_hooks(&self) -> Seq<Self::Hook> {
        Seq::empty()
    }

    /// The provider factories `register` adds when it succeeds, when the
    /// plugin obeys its spec.
    open spec fn spec_contributed_factories(&self) -> Seq<Self::Factory> {
        Seq::empty()
    }

    /// How `activate` ends, when the plugin obeys its spec.
    open spec fn spec_activate(&self) -> Result<(), Seq<char>> {
        Ok(())
    }

    /// Unique identifier for this plugin (e.g., "my-company/my-plugin").
    fn id(&self) -> (r: &str)
        ensures
            self.obeys_plugin_spec() ==> r@ == self.spec_id(),
    ;

    /// Human-readable plugin name.
    fn name(&self) -> (r: &str)
        ensures
            self.obeys_plugin_spec() ==> r@ == self.spec_name(),
    ;

    /// Semantic version of this plugin.
    fn version(&self) -> (r: &str)
        ensures
            self.obeys_plugin_spec() ==> r@ == self.spec_version(),
    ;

    /// Short description of what this plugin provides.
    fn description(&self) -> (r: &str)
        ensures
            self.obeys_plugin_spec() ==> r@ == self.spec_description(),
    ;

    /// Register all extensions this plugin provides.
    fn register<A: PluginApi<Tool = Self::Tool, Hook = Self::Hook, Factory = Self::Factory>>(
        &self,
        api: &mut A,
    ) -> (r: Result<(), String>)
        ensures
            self.obeys_plugin_spec() ==> result_agrees(r, self.spec_register_result()),
            self.obeys_plugin_spec() && r is Ok ==> {
                &&& final(api).spec_tools() == old(api).spec_tools() + self.spec_contributed_tools()
                &&& final(api).spec_hooks() == old(api).spec_hooks() + self.spec_contributed_hooks()
                &&& final(api).spec_factories() == old(api).spec_factories()
                    + self.spec_contributed_factories()
            },
    ;

    /// Activate the plugin after all registrations are complete (a plugin
    /// with nothing to set up returns `Ok(())`).
    fn activate(&self) -> (r: Result<(), String>)
        ensures
            self.obeys_plugin_spec() ==> result_agrees(r, self.spec_activate()),
    ;
}

/// What a plugin that obeys its spec reports of itself.
pub open spec fn reported_plugin_info<P: Plugin>(p: P) -> PluginInfoView {
    PluginInfoView {
        id: p.spec_id(),
        name: p.spec_name(),
        version: p.spec_version(),
        description: p.spec_description(),
    }
}

/// Every plugin of `ps` obeys its spec.
pub open spec fn all_obey<P: Plugin>(ps: Seq<P>) -> bool {
    forall|i: int| 0 <= i < ps.len() ==> (#[trigger] ps[i]).obeys_plugin_spec()
}

/// The outcome of the registration phase over the plugins of `es`, in
/// order, as their spec functions give it: the first failure, or the tools,
/// hooks and provider factories they contribute, concatenated in order.
pub open spec fn registration_of<P: Plugin>(es: Seq<P>) -> Result<
    (Seq<P::Tool>, Seq<P::Hook>, Seq<P::Factory>),
    Seq<char>,
>
    decreases es.len(),
{
    if es.len() == 0 {
        Ok((Seq::empty(), Seq::empty(), Seq::empty()))
    } else {
        match registration_of(es.drop_last()) {
            Err(m) => Err(m),
            Ok((t, h, f)) => {
                let p = es.last();
                match p.spec_register_result() {
                    Err(m) => Err(m),
                    Ok(()) => Ok(
                        (
                            t + p.spec_contributed_tools(),
                            h + p.spec_contributed_hooks(),
                            f + p.spec_contributed_factories(),
                        ),
                    ),
                }
            },
        }
    }
}

/// The outcome of the activation phase over the plugins of `es`, in order,
/// as their spec functions give it: the first failure, or success.
pub open spec fn activation_of<P: Plugin>(es: Seq<P>) -> Result<(), Seq<char>>
    decreases es.len(),
{
    if es.len() == 0 {
        Ok(())
    } else {
        match activation_of(es.drop_last()) {
            Err(m) => Err(m),
            Ok(()) => es.last().spec_activate(),
        }
    }
}

/// Law: the registration phase collects in plugin order. When the plugins
/// so far succeeded, one more plugin that succeeds appends its tools, hooks
/// and provider factories after theirs, and one that fails ends the phase
/// with its error; once an earlier plugin failed, its error stands.
pub proof fn law_registration_appends_in_order<P: Plugin>(ps: Seq<P>, p: P)
    ensures
        registration_of(ps) is Ok && p.spec_register_result() is Ok ==> registration_of(ps.push(p))
            == Ok::<(Seq<P::Tool>, Seq<P::Hook>, Seq<P::Factory>), Seq<char>>(
            (
                registration_of(ps)->Ok_0.0 + p.spec_contributed_tools(),
                registration_of(ps)->Ok_0.1 + p.spec_contributed_hooks(),
                registration_of(ps)->Ok_0.2 + p.spec_contributed_factories(),
            ),
        ),
        registration_of(ps) is Ok && p.spec_register_result() is Err ==> registration_of(
            ps.push(p),
        ) == Err::<(Seq<P::Tool>, Seq<P::Hook>, Seq<P::Factory>), Seq<char>>(
            p.spec_register_result()->Err_0,
        ),
        registration_of(ps) is Err ==> registration_of(ps.push(p)) == registration_of(ps),
{
    assert(ps.push(p).drop_last() =~= ps);
    assert(ps.push(p).last() == p);
}

/// Law: a single plugin that succeeds contributes exactly its own tools,
/// hooks and provider factories, in its own order.
pub proof fn law_registration_of_one<P: Plugin>(p: P)
    ensures
        p.spec_register_result() is Ok ==> registration_of(seq![p]) == Ok::<
            (Seq<P::Tool>, Seq<P::Hook>, Seq<P::Factory>),
            Seq<char>,
        >((p.spec_contributed_tools(), p.spec_contributed_hooks(), p.spec_contributed_factories())),
{
    law_registration_appends_in_order(Seq::<P>::empty(), p);
    assert(Seq::<P>::empty().push(p) =~= seq![p]);
    assert(Seq::<P::Tool>::empty() + p.spec_contributed_tools() =~= p.spec_contributed_tools());
    assert(Seq::<P::Hook>::empty() + p.spec_contributed_hooks() =~= p.spec_contributed_hooks());
    assert(Seq::<P::Factory>::empty() + p.spec_contributed_factories()
        =~= p.spec_contributed_factories());
}

/// Law: the activation phase activates in plugin order. When the plugins so
/// far activated, one more plugin ends the phase as its own activation
/// ends; once an earlier plugin failed, its error stands.
pub proof fn law_activation_in_order<P: Plugin>(ps: Seq<P>, p: P)
    ensures
        activation_of(ps) is Ok ==> activation_of(ps.push(p)) == p.spec_activate(),
        activation_of(ps) is Err ==> activation_of(ps.push(p)) == activation_of(ps),
        activation_of(Seq::<P>::empty()) == Ok::<(), Seq<char>>(()),
{
    assert(ps.push(p).drop_last() =~= ps);
    assert(ps.push(p).last() == p);
}

proof fn lemma_registration_failure_persists<P: Plugin>(
    es: Seq<P>,
    k: int,
    n: int,
    m: Seq<char>,
)
    requires
        0 <= k <= n <= es.len(),
        registration_of(es.take(k)) == Err::<(Seq<P::Tool>, Seq<P::Hook>, Seq<P::Factory>), Seq<char>>(m),
    ensures
        registration_of(es.take(n)) == Err::<(Seq<P::Tool>, Seq<P::Hook>, Seq<P::Factory>), Seq<char>>(m),
    decreases n - k,
{
    if k < n {
        assert(es.take(k + 1).drop_last() =~= es.take(k));
        lemma_registration_failure_persists(es, k + 1, n, m);
    }
}

proof fn lemma_activation_failure_persists<P: Plugin>(
    es: Seq<P>,
    k: int,
    n: int,
    m: Seq<char>,
)
    requires
        0 <= k <= n <= es.len(),
        activation_of(es.take(k)) == Err::<(), Seq<char>>(m),
    ensures
        activation_of(es.take(n)) == Err::<(), Seq<char>>(m),
    decreases n - k,
{
    if k < n {
        assert(es.take(k + 1).drop_last() =~= es.take(k));
        lemma_activation_failure_persists(es, k + 1, n, m);
    }
}

/// Collects what plugins register: tools, hooks and provider factories, each
/// in the order registered.
pub struct DefaultPluginApi<T, H, F> {
    tools: Vec<T>,
    hooks: Vec<H>,
    provider_factories: Vec<F>,
}

impl<T, H, F> DefaultPluginApi<T, H, F> {
    /// The tools registered and not yet taken.
    pub closed spec fn tools(&self) -> Seq<T> {
        self.tools@
    }

    /// The hooks registered and not yet taken.
    pub closed spec fn hooks(&self) -> Seq<H> {
        self.hooks@
    }

    /// The provider factories registered and not yet taken.
    pub closed spec fn factories(&self) -> Seq<F> {
        self.provider_factories@
    }

    /// Nothing is held.
    pub open spec fn is_empty(&self) -> bool {
        &&& self.tools().len() == 0
        &&& self.hooks().len() == 0
        &&& self.factories().len() == 0
    }

    /// An API that holds nothing yet.
    pub fn new() -> (r: Self)
        ensures
            r.tools() == Seq::<T>::empty(),
            r.hooks() == Seq::<H>::empty(),
            r.factories() == Seq::<F>::empty(),
    {
        DefaultPluginApi { tools: Vec::new(), hooks: Vec::new(), provider_factories: Vec::new() }
    }

    /// Extract all registered tools, leaving none.
    pub fn take_tools(&mut self) -> (r: Vec<T>)
        ensures
            r@ == old(self).tools(),
            final(self).tools() == Seq::<T>::empty(),
            final(self).hooks() == old(self).hooks(),
            final(self).factories() == old(self).factories(),
    {
        let mut out: Vec<T> = Vec::new();
        std::mem::swap(&mut out, &mut self.tools);
        out
    }

    /// Extract all registered hooks, leaving none.
    pub fn take_hooks(&mut self) -> (r: Vec<H>)
        ensures
            r@ == old(self).hooks(),
            final(self).hooks() == Seq::<H>::empty(),
            final(self).tools() == old(self).tools(),
            final(self).factories() == old(self).factories(),
    {
        let mut out: Vec<H> = Vec::new();
        std::mem::swap(&mut out, &mut self.hooks);
        out
    }

    /// Extract all registered provider factories, leaving none.
    pub fn take_provider_factories(&mut self) -> (r: Vec<F>)
        ensures
            r@ == old(self).factories(),
            final(self).factories() == Seq::<F>::empty(),
            final(self).tools() == old(self).tools(),
            final(self).hooks() == old(self).hooks(),
    {
        let mut out: Vec<F> = Vec::new();
        std::mem::swap(&mut out, &mut self.provider_factories);
        out
    }
}

impl<T, H, F> PluginApi for DefaultPluginApi<T, H, F> {
    type Tool = T;

    type Hook = H;

    type Factory = F;

    open spec fn spec_tools(&self) -> Seq<T> {
        self.tools()
    }

    open spec fn spec_hooks(&self) -> Seq<H> {
        self.hooks()
    }

    open spec fn spec_factories(&self) -> Seq<F> {
        self.factories()
    }

    /// Append a tool.
    fn register_tool(&mut self, tool: T)
        ensures
            final(self).tools() == old(self).tools().push(tool),
            final(self).hooks() == old(self).hooks(),
            final(self).factories() == old(self).factories(),
    {
        self.tools.push(tool);
    }

    /// Append a hook.
    fn register_hook(&mut self, handler: H)
        ensures
            final(self).hooks() == old(self).hooks().push(handler),
            final(self).tools() == old(self).tools(),
            final(self).factories() == old(self).factories(),
    {
        self.hooks.push(handler);
    }

    /// Append a provider factory.
    fn register_provider_factory(&mut self, factory: F)
        ensures
            final(self).factories() == old(self).factories().push(factory),
            final(self).tools() == old(self).tools(),
            final(self).hooks() == old(self).hooks(),
    {
        self.provider_factories.push(factory);
    }
}

/// Plugin registry: holds plugins in registration order and runs their
/// registration and activation phases. Listings ask each plugin for its id,
/// name, version and description.
pub struct PluginRegistry<P> {
    plugins: Vec<P>,
}

impl<P: Plugin> View for PluginRegistry<P> {
    type V = Seq<P>;

    closed spec fn view(&self) -> Seq<P> {
        self.plugins@
    }
}

impl<P: Plugin> PluginRegistry<P> {
    /// Create an empty registry.
    pub fn new() -> (r: Self)
        ensures
            r@ == Seq::<P>::empty(),
    {
        PluginRegistry { plugins: Vec::new() }
    }

    /// Create a registry with all built-in plugins; there are none yet.
    pub fn with_defaults() -> (r: Self)
        ensures
            r@ == Seq::<P>::empty(),
    {
        Self::new()
    }

    /// Register a plugin, after those already registered. Neither its
    /// registration nor its activation is run.
    pub fn register(&mut self, plugin: P)
        ensures
            final(self)@ == old(self)@.push(plugin),
    {
        self.plugins.push(plugin);
    }

    /// Run the registration phase: each plugin, in order, registers into one
    /// fresh API; the first failure stops the phase and is returned. With no
    /// plugins the result is an empty API.
    pub fn run_registration(&self) -> (r: Result<DefaultPluginApi<P::Tool, P::Hook, P::Factory>, String>)
        ensures
            self@.len() == 0 ==> (r matches Ok(api) && api.is_empty()),
            all_obey(self@) ==> match registration_of(self@) {
                Ok((t, h, f)) => r matches Ok(api) && api.tools() == t && api.hooks() == h
                    && api.factories() == f,
                Err(m) => r matches Err(e) && e@ == m,
            },
    {
        let mut api: DefaultPluginApi<P::Tool, P::Hook, P::Factory> = DefaultPluginApi::new();
        let mut i: usize = 0;
        while i < self.plugins.len()
            invariant
                i <= self.plugins@.len(),
                self.plugins@.len() == 0 ==> api.is_empty(),
                all_obey(self@) ==> registration_of(self@.take(i as int)) == Ok::<
                    (Seq<P::Tool>, Seq<P::Hook>, Seq<P::Factory>),
                    Seq<char>,
                >((api.tools(), api.hooks(), api.factories())),
            decreases self.plugins@.len() - i,
        {
            assert(self@.take(i + 1).drop_last() =~= self@.take(i as int));
            match self.plugins[i].register(&mut api) {
                Ok(()) => {},
                Err(e) => {
                    proof {
                        if all_obey(self@) {
                            lemma_registration_failure_persists(self@, i + 1, self@.len() as int, e@);
                            assert(self@.take(self@.len() as int) =~= self@);
                        }
                    }
                    return Err(e);
                },
            }
            i = i + 1;
        }
        assert(self@.take(self@.len() as int) =~= self@);
        Ok(api)
    }

    /// Run the activation phase: each plugin, in order, is activated; the
    /// first failure stops the phase and is returned.
    pub fn activate_all(&self) -> (r: Result<(), String>)
        ensures
            self@.len() == 0 ==> r is Ok,
            all_obey(self@) ==> result_agrees(r, activation_of(self@)),
    {
        let mut i: usize = 0;
        while i < self.plugins.len()
            invariant
                i <= self.plugins@.len(),
                all_obey(self@) ==> activation_of(self@.take(i as int)) == Ok::<(), Seq<char>>(()),
            decreases self.plugins@.len() - i,
        {
            assert(self@.take(i + 1).drop_last() =~= self@.take(i as int));
            match self.plugins[i].activate() {
                Ok(()) => {},
                Err(e) => {
                    proof {
                        if all_obey(self@) {
                            lemma_activation_failure_persists(self@, i + 1, self@.len() as int, e@);
                            assert(self@.take(self@.len() as int) =~= self@);
                        }
                    }
                    return Err(e);
                },
            }
            i = i + 1;
        }
        assert(self@.take(self@.len() as int) =~= self@);
        Ok(())
    }

    /// List all registered plugins, in registration order, asking each for
    /// its id, name, version and description.
    pub fn list_plugins(&self) -> (r: Vec<PluginInfo>)
        ensures
            r@.len() == self@.len(),
            forall|i: int|
                0 <= i < r@.len() && (#[trigger] self@[i]).obeys_plugin_spec() ==> r@[i]@
                    == reported_plugin_info(self@[i]),
    {
        let mut out: Vec<PluginInfo> = Vec::new();
        let mut i: usize = 0;
        while i < self.plugins.len()
            invariant
                i <= self.plugins@.len(),
                out@.len() == i,
                forall|k: int|
                    0 <= k < i && (#[trigger] self@[k]).obeys_plugin_spec() ==> out@[k]@
                        == reported_plugin_info(self@[k]),
            decreases self.plugins@.len() - i,
        {
            let p = &self.plugins[i];
            let info = PluginInfo {
                id: to_string(p.id()),
                name: to_string(p.name()),
                version: to_string(p.version()),
                description: to_string(p.description()),
            };
            out.push(info);
            i = i + 1;
        }
        out
    }

    /// Number of registered plugins.
    pub fn count(&self) -> (r: usize)
        ensures
            r == self@.len(),
    {
        self.plugins.len()
    }
}

} // verus!
