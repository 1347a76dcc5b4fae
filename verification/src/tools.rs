//! Tools and the registry that holds them, looked up by exact name.

use vstd::prelude::*;
use crate::text::{str_eq, to_string};

verus! {

/// Declares `serde_json::Value` (a JSON document) to Verus as an opaque
/// type, so that tool schemas and call arguments can be carried through
/// verified code; nothing is claimed of its values.
#[verifier::external_type_specification]
#[verifier::external_body]
pub struct ExJsonValue(serde_json::Value);

/// What a model is told of a tool: its name, description and the JSON schema
/// of its parameters.
#[derive(Debug)]
pub struct ToolSpec {
    pub name: String,
    pub description: String,
    pub parameters: serde_json::Value,
}

/// A tool the agent can call, as the registry sees it.
///
/// A tool whose `obeys_tool_spec` is true promises that `name` and
/// `description` return `spec_name` and `spec_description`; by default a
/// tool promises nothing of them.
pub trait Tool {
    /// Whether this tool's `name` and `description` follow the spec functions.
    open spec fn obeys_tool_spec(&self) -> bool {
        false
    }

    /// The name this tool reports, when it obeys its spec.
    open spec fn spec_name(&self) -> Seq<char> {
        Seq::empty()
    }

    /// The description this tool reports, when it obeys its spec.
    open spec fn spec_description(&self) -> Seq<char> {
        Seq::empty()
    }

    /// The tool's name, by which the model calls it.
    fn name(&self) -> (r: &str)
        ensures
            self.obeys_tool_spec() ==> r@ == self.spec_name(),
    ;

    /// What the tool does.
    fn description(&self) -> (r: &str)
        ensures
            self.obeys_tool_spec() ==> r@ == self.spec_description(),
    ;

    /// The JSON schema of the tool's parameters.
    fn parameters_schema(&self) -> serde_json::Value;

    /// The tool's specification: its name, description and parameter schema,
    /// as the tool reports them.
    fn spec(&self) -> (r: ToolSpec)
        ensures
            self.obeys_tool_spec() ==> r.name@ == self.spec_name() && r.description@
                == self.spec_description(),
    {
        ToolSpec {
            name: to_string(self.name()),
            description: to_string(self.description()),
            parameters: self.parameters_schema(),
        }
    }
}

/// Whether some entry of `entries` is named `name`.
pub open spec fn has_tool_named<T>(entries: Seq<(Seq<char>, T)>, name: Seq<char>) -> bool {
    exists|i: int| 0 <= i < entries.len() && (#[trigger] entries[i]).0 == name
}

/// `after` is `before` with `tool`, named `name`, registered in place of any
/// tool of that name: the entry is there, it is the only entry of its name,
/// every entry of another name is kept, and nothing else was added.
pub open spec fn registered<T>(
    before: Seq<(Seq<char>, T)>,
    name: Seq<char>,
    tool: T,
    after: Seq<(Seq<char>, T)>,
) -> bool {
    &&& after.contains((name, tool))
    &&& forall|e: (Seq<char>, T)| after.contains(e) && e.0 == name ==> e == (name, tool)
    &&& forall|e: (Seq<char>, T)| before.contains(e) && e.0 != name ==> after.contains(e)
    &&& forall|e: (Seq<char>, T)| after.contains(e) ==> e == (name, tool) || before.contains(e)
}

/// `after` is `before` without its entries named `name`, every other entry
/// kept.
pub open spec fn removed<T>(before: Seq<(Seq<char>, T)>, name: Seq<char>, after: Seq<(Seq<char>, T)>) -> bool {
    &&& forall|e: (Seq<char>, T)| after.contains(e) ==> e.0 != name && before.contains(e)
    &&& forall|e: (Seq<char>, T)| before.contains(e) && e.0 != name ==> after.contains(e)
}

/// Every tool of `ts` obeys its spec, so the name it reports is known.
pub open spec fn all_tools_obey<T: Tool>(ts: Seq<T>) -> bool {
    forall|i: int| 0 <= i < ts.len() ==> (#[trigger] ts[i]).obeys_tool_spec()
}

/// The tools of `ts`, each with the name it reports when it obeys its spec.
pub open spec fn tool_entries<T: Tool>(ts: Seq<T>) -> Seq<(Seq<char>, T)> {
    ts.map_values(|t: T| (t.spec_name(), t))
}

/// A collection of tools with registration, lookup by name, listing and
/// removal. A tool's name is what the tool reports when it is asked.
///
/// What depends on the names of the tools held is stated for registries
/// whose tools all obey their spec; the rest holds of any tools.
pub trait ToolRegistry {
    type Item: Tool;

    /// The registered tools, in order.
    spec fn spec_tools(&self) -> Seq<Self::Item>;

    /// Register a new tool. If a tool with the same name already exists,
    /// it is replaced.
    fn register(&mut self, tool: Self::Item)
        ensures
            final(self).spec_tools().contains(tool),
            forall|t: Self::Item|
                #[trigger] final(self).spec_tools().contains(t) ==> t == tool || old(
                    self,
                ).spec_tools().contains(t),
            all_tools_obey(old(self).spec_tools()) && tool.obeys_tool_spec() ==> registered(
                tool_entries(old(self).spec_tools()),
                tool.spec_name(),
                tool,
                tool_entries(final(self).spec_tools()),
            ),
    ;

    /// Look up a tool by name.
    fn get(&self, name: &str) -> (r: Option<&Self::Item>)
        ensures
            r matches Some(t) ==> self.spec_tools().contains(*t) && (t.obeys_tool_spec()
                ==> t.spec_name() == name@),
            all_tools_obey(self.spec_tools()) ==> (r is None <==> !has_tool_named(
                tool_entries(self.spec_tools()),
                name@,
            )),
    ;

    /// All registered tools.
    fn list(&self) -> (r: &[Self::Item])
        ensures
            r@ == self.spec_tools(),
    ;

    /// Tool specifications for all registered tools, in the order of `list`.
    fn specs(&self) -> (r: Vec<ToolSpec>)
        ensures
            r@.len() == self.spec_tools().len(),
            forall|i: int|
                0 <= i < r@.len() && (#[trigger] self.spec_tools()[i]).obeys_tool_spec() ==> r@[i].name@
                    == self.spec_tools()[i].spec_name() && r@[i].description@
                    == self.spec_tools()[i].spec_description(),
    {
        let tools = self.list();
        let mut out: Vec<ToolSpec> = Vec::new();
        let mut i: usize = 0;
        while i < tools.len()
            invariant
                i <= tools@.len(),
                tools@ == self.spec_tools(),
                out@.len() == i,
                forall|k: int|
                    0 <= k < i && (#[trigger] self.spec_tools()[k]).obeys_tool_spec() ==> out@[k].name@
                        == self.spec_tools()[k].spec_name() && out@[k].description@
                        == self.spec_tools()[k].spec_description(),
            decreases tools@.len() - i,
        {
            out.push(tools[i].spec());
            i = i + 1;
        }
        out
    }

    /// Remove the tools of a name. Returns true if a tool was removed.
    fn remove(&mut self, name: &str) -> (r: bool)
        ensures
            forall|t: Self::Item|
                #[trigger] final(self).spec_tools().contains(t) ==> old(self).spec_tools().contains(t),
            all_tools_obey(old(self).spec_tools()) ==> r == has_tool_named(
                tool_entries(old(self).spec_tools()),
                name@,
            ),
            all_tools_obey(old(self).spec_tools()) ==> removed(
                tool_entries(old(self).spec_tools()),
                name@,
                tool_entries(final(self).spec_tools()),
            ),
    ;

    /// Number of registered tools.
    fn count(&self) -> (r: usize)
        ensures
            r == self.spec_tools().len(),
    {
        self.list().len()
    }

    /// Whether a tool with the given name is registered.
    fn contains(&self, name: &str) -> (r: bool)
        ensures
            all_tools_obey(self.spec_tools()) ==> r == has_tool_named(
                tool_entries(self.spec_tools()),
                name@,
            ),
    {
        self.get(name).is_some()
    }
}

/// `entries` without those named `name`, the others in their order.
pub open spec fn without_named<T>(entries: Seq<(Seq<char>, T)>, name: Seq<char>) -> Seq<(Seq<char>, T)>
    decreases entries.len(),
{
    if entries.len() == 0 {
        Seq::empty()
    } else if entries.last().0 == name {
        without_named(entries.drop_last(), name)
    } else {
        without_named(entries.drop_last(), name).push(entries.last())
    }
}

proof fn lemma_push_contains<A>(s: Seq<A>, x: A)
    ensures
        forall|y: A| #[trigger] s.push(x).contains(y) <==> s.contains(y) || y == x,
{
    assert forall|y: A| #[trigger] s.push(x).contains(y) <==> s.contains(y) || y == x by {
        if s.push(x).contains(y) {
            let k = choose|k: int| 0 <= k < s.len() + 1 && s.push(x)[k] == y;
            if k < s.len() {
                assert(s[k] == y);
            }
        }
        if s.contains(y) {
            let k = choose|k: int| 0 <= k < s.len() && s[k] == y;
            assert(s.push(x)[k] == y);
        }
        if y == x {
            assert(s.push(x)[s.len() as int] == y);
        }
    }
}

pub proof fn lemma_without_named_contains<T>(entries: Seq<(Seq<char>, T)>, name: Seq<char>)
    ensures
        forall|e: (Seq<char>, T)|
            #[trigger] without_named(entries, name).contains(e) <==> entries.contains(e) && e.0
                != name,
        without_named(entries, name).len() <= entries.len(),
        without_named(entries, name).len() < entries.len() <==> has_tool_named(entries, name),
    decreases entries.len(),
{
    if entries.len() > 0 {
        let rest = entries.drop_last();
        lemma_without_named_contains(rest, name);
        lemma_push_contains(rest, entries.last());
        assert(rest.push(entries.last()) =~= entries);
        lemma_push_contains(without_named(rest, name), entries.last());
        if has_tool_named(entries, name) {
            let k = choose|k: int| 0 <= k < entries.len() && (#[trigger] entries[k]).0 == name;
            if k < rest.len() {
                assert(rest[k] == entries[k]);
            }
        }
        if has_tool_named(rest, name) {
            let k = choose|k: int| 0 <= k < rest.len() && (#[trigger] rest[k]).0 == name;
            assert(entries[k] == rest[k]);
        }
    }
}

/// Without an entry of the name, nothing is dropped.
pub proof fn lemma_without_named_all_kept<T>(entries: Seq<(Seq<char>, T)>, name: Seq<char>)
    ensures
        !has_tool_named(entries, name) ==> without_named(entries, name) == entries,
    decreases entries.len(),
{
    if entries.len() > 0 && !has_tool_named(entries, name) {
        let rest = entries.drop_last();
        assert(entries[entries.len() - 1].0 != name);
        assert(!has_tool_named(rest, name)) by {
            if has_tool_named(rest, name) {
                let k = choose|k: int| 0 <= k < rest.len() && (#[trigger] rest[k]).0 == name;
                assert(entries[k] == rest[k]);
            }
        }
        lemma_without_named_all_kept(rest, name);
        assert(rest.push(entries.last()) =~= entries);
    } else if entries.len() == 0 {
        assert(entries =~= Seq::<(Seq<char>, T)>::empty());
    }
}

/// Default tool registry backed by a `Vec`, in registration order.
pub struct DefaultToolRegistry<T> {
    tools: Vec<T>,
}

impl<T: Tool> View for DefaultToolRegistry<T> {
    type V = Seq<T>;

    closed spec fn view(&self) -> Seq<T> {
        self.tools@
    }
}

/// A tool is named `name` when it reports that name.
fn is_named<T: Tool>(t: &T, name: &str) -> (r: bool)
    ensures
        t.obeys_tool_spec() ==> r == (t.spec_name() == name@),
{
    str_eq(t.name(), name)
}

impl<T: Tool> DefaultToolRegistry<T> {
    /// Create an empty registry.
    pub fn new() -> (r: Self)
        ensures
            r@ == Seq::<T>::empty(),
    {
        DefaultToolRegistry { tools: Vec::new() }
    }

    /// Create a registry pre-populated with tools, in the given order.
    pub fn with_tools(tools: Vec<T>) -> (r: Self)
        ensures
            r@ == tools@,
    {
        DefaultToolRegistry { tools }
    }

    /// Drop every tool that reports the name `name`, keeping the others in
    /// their order.
    fn retain_other_names(&mut self, name: &str)
        ensures
            forall|t: T| #[trigger] final(self)@.contains(t) ==> old(self)@.contains(t),
            all_tools_obey(old(self)@) ==> tool_entries(final(self)@) == without_named(
                tool_entries(old(self)@),
                name@,
            ),
    {
        let mut old_tools: Vec<T> = Vec::new();
        std::mem::swap(&mut old_tools, &mut self.tools);
        let ghost tools0 = old_tools@;
        let mut kept: Vec<T> = Vec::new();
        let ghost mut i: int = 0;
        while old_tools.len() > 0
            invariant
                0 <= i <= tools0.len(),
                old_tools@ == tools0.skip(i),
                forall|t: T| #[trigger] kept@.contains(t) ==> tools0.contains(t),
                all_tools_obey(tools0) ==> tool_entries(kept@) == without_named(
                    tool_entries(tools0.take(i)),
                    name@,
                ),
            decreases old_tools@.len(),
        {
            let t = old_tools.remove(0);
            proof {
                assert(tools0[i] == t);
                assert(tools0.skip(i + 1) =~= tools0.skip(i).drop_first());
                assert(tool_entries(tools0.take(i + 1)).drop_last() =~= tool_entries(tools0.take(i)));
                assert(tool_entries(tools0.take(i + 1)).last() == (t.spec_name(), t));
            }
            let ghost prev = kept@;
            if !is_named(&t, name) {
                kept.push(t);
                proof {
                    lemma_push_contains(prev, t);
                    assert(tool_entries(kept@) =~= tool_entries(prev).push((t.spec_name(), t)));
                }
            }
            proof {
                i = i + 1;
            }
        }
        assert(tools0.take(tools0.len() as int) =~= tools0);
        self.tools = kept;
    }
}

impl<T: Tool> ToolRegistry for DefaultToolRegistry<T> {
    type Item = T;

    open spec fn spec_tools(&self) -> Seq<T> {
        self@
    }

    /// Register a tool after dropping every tool that reports the same name.
    fn register(&mut self, tool: T)
        ensures
            final(self)@.len() > 0,
            final(self)@.last() == tool,
            all_tools_obey(old(self)@) && tool.obeys_tool_spec() ==> tool_entries(final(self)@)
                == without_named(tool_entries(old(self)@), tool.spec_name()).push(
                (tool.spec_name(), tool),
            ),
    {
        let name = to_string(tool.name());
        let ghost before = self@;
        self.retain_other_names(name.as_str());
        let ghost mid = self@;
        self.tools.push(tool);
        proof {
            lemma_push_contains(mid, tool);
            if all_tools_obey(before) && tool.obeys_tool_spec() {
                assert(tool_entries(self@) =~= tool_entries(mid).push((name@, tool)));
                lemma_without_named_contains(tool_entries(before), name@);
                lemma_push_contains(tool_entries(mid), (name@, tool));
                assert(registered(tool_entries(before), name@, tool, tool_entries(self@)));
            }
        }
    }

    /// The first tool that reports this name.
    fn get(&self, name: &str) -> (r: Option<&T>)
        ensures
            all_tools_obey(self@) ==> (r matches Some(t) ==> exists|i: int|
                0 <= i < self@.len() && #[trigger] self@[i] == *t && t.spec_name() == name@
                    && forall|j: int| 0 <= j < i ==> (#[trigger] self@[j]).spec_name() != name@),
    {
        let mut i: usize = 0;
        while i < self.tools.len()
            invariant
                i <= self.tools@.len(),
                forall|j: int|
                    0 <= j < i && (#[trigger] self@[j]).obeys_tool_spec() ==> self@[j].spec_name()
                        != name@,
            decreases self.tools@.len() - i,
        {
            if is_named(&self.tools[i], name) {
                assert(self@.contains(self@[i as int]));
                proof {
                    if all_tools_obey(self@) {
                        assert(tool_entries(self@)[i as int].0 == name@);
                    }
                }
                return Some(&self.tools[i]);
            }
            i = i + 1;
        }
        proof {
            if all_tools_obey(self@) && has_tool_named(tool_entries(self@), name@) {
                let k = choose|k: int|
                    0 <= k < tool_entries(self@).len() && (#[trigger] tool_entries(self@)[k]).0 == name@;
                assert(self@[k].obeys_tool_spec());
            }
        }
        None
    }

    fn list(&self) -> (r: &[T]) {
        self.tools.as_slice()
    }

    /// Remove every tool that reports this name, keeping the others in their
    /// order.
    fn remove(&mut self, name: &str) -> (r: bool)
        ensures
            all_tools_obey(old(self)@) ==> tool_entries(final(self)@) == without_named(
                tool_entries(old(self)@),
                name@,
            ),
    {
        let ghost before = self@;
        let before_len = self.tools.len();
        self.retain_other_names(name);
        proof {
            if all_tools_obey(before) {
                lemma_without_named_contains(tool_entries(before), name@);
            }
        }
        self.tools.len() < before_len
    }
}

/// Law: after a tool is registered, looking up its name finds that tool and
/// no other, whatever was registered under that name before.
pub proof fn law_register_then_lookup<T>(
    before: Seq<(Seq<char>, T)>,
    name: Seq<char>,
    tool: T,
    after: Seq<(Seq<char>, T)>,
)
    requires
        registered(before, name, tool, after),
    ensures
        has_tool_named(after, name),
        forall|i: int| 0 <= i < after.len() && (#[trigger] after[i]).0 == name ==> after[i].1 == tool,
{
    let k = choose|k: int| 0 <= k < after.len() && after[k] == (name, tool);
    assert(after[k].0 == name);
    assert forall|i: int| 0 <= i < after.len() && (#[trigger] after[i]).0 == name implies after[i].1
        == tool by {
        assert(after.contains(after[i]));
    }
}

/// Law: once a tool that obeys its spec is registered among tools that obey
/// theirs, its name finds it: some tool reports that name, and any tool a
/// lookup of the name gives (a held tool that reports the name) is that very
/// tool.
pub proof fn law_registered_tool_is_found<T: Tool>(
    before: Seq<T>,
    tool: T,
    after: Seq<T>,
    found: T,
)
    requires
        tool.obeys_tool_spec(),
        registered(tool_entries(before), tool.spec_name(), tool, tool_entries(after)),
        after.contains(found),
        found.obeys_tool_spec(),
        found.spec_name() == tool.spec_name(),
    ensures
        has_tool_named(tool_entries(after), tool.spec_name()),
        found == tool,
{
    law_register_then_lookup(tool_entries(before), tool.spec_name(), tool, tool_entries(after));
    let k = choose|k: int| 0 <= k < after.len() && after[k] == found;
    assert(tool_entries(after)[k] == (found.spec_name(), found));
}

/// Law: after the tools of a name are removed, no tool of that name is left.
pub proof fn law_remove_then_absent<T>(
    before: Seq<(Seq<char>, T)>,
    name: Seq<char>,
    after: Seq<(Seq<char>, T)>,
)
    requires
        removed(before, name, after),
    ensures
        !has_tool_named(after, name),
{
    if has_tool_named(after, name) {
        let k = choose|k: int| 0 <= k < after.len() && (#[trigger] after[k]).0 == name;
        assert(after.contains(after[k]));
    }
}

/// Law: in the default registry, registering under a new name adds one
/// tool, and registering under a taken name never adds to the count.
pub proof fn law_default_register_count<T>(before: Seq<(Seq<char>, T)>, name: Seq<char>, tool: T)
    ensures
        !has_tool_named(before, name) ==> without_named(before, name).push((name, tool)).len()
            == before.len() + 1,
        has_tool_named(before, name) ==> without_named(before, name).push((name, tool)).len()
            <= before.len(),
{
    lemma_without_named_contains(before, name);
    lemma_without_named_all_kept(before, name);
}

} // verus!
