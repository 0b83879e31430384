//! The tool routing system.
//!
//! A [`ToolRouter`] accumulates tool registrations: a name, optional
//! description, an optional JSON-Schema-shaped parameters value, and either a
//! handler or nothing (a definition-only tool, handled by the remote caller).
//! Binding application state with [`ToolRouter::with_state`] consumes the
//! router and yields a [`BuiltToolRouter`], which can execute tools by name.
//!
//! Execution has a three-way outcome: [`ExecuteOutcome::Executed`] when a
//! handler ran (successfully or not), [`ExecuteOutcome::NoHandler`] when the
//! tool is known but intentionally has no local implementation — the agent
//! loop must return control to its caller — and
//! [`ExecuteOutcome::NotFound`] when the name is unknown entirely.

use vstd::prelude::*;

use crate::errors::ToolExecutionError;
use crate::json::{json_view, JsonSpec, JsonValue};
use crate::types::{ToolDefinition, ToolDefinitionSpec};

verus! {

/// A typed tool implementation. `post` captures the relation the handler
/// establishes between the shared state, the JSON input and its output;
/// `call` is proved (or, for handlers outside the library, promised) to
/// establish it.
pub trait ToolHandler<S>: Sized {
    /// The relation between state, input and output that `call` establishes.
    /// The default promises nothing, which is what a handler outside the
    /// verifier's view provides.
    open spec fn post(
        &self,
        state: S,
        input: JsonSpec,
        output: Result<JsonValue, ToolExecutionError>,
    ) -> bool {
        true
    }

    /// Runs the tool on the shared state and a JSON input.
    fn call(&self, state: &S, input: &JsonValue) -> (r: Result<JsonValue, ToolExecutionError>)
        ensures
            self.post(*state, input.deep_view(), r),
    ;
}

/// Name, optional description and optional parameter schema of one tool.
#[derive(Debug)]
pub struct ToolMetadata {
    pub name: String,
    pub description: Option<String>,
    pub parameters_schema: Option<JsonValue>,
}

/// Model of [`ToolMetadata`].
#[verifier::ext_equal]
pub struct ToolMetadataSpec {
    pub name: Seq<char>,
    pub description: Option<Seq<char>>,
    pub parameters_schema: Option<JsonSpec>,
}

impl DeepView for ToolMetadata {
    type V = ToolMetadataSpec;

    open spec fn deep_view(&self) -> ToolMetadataSpec {
        ToolMetadataSpec {
            name: self.name@,
            description: self.description.deep_view(),
            parameters_schema: match self.parameters_schema {
                Some(ref s) => Some(json_view(*s)),
                None => None,
            },
        }
    }
}

struct ToolEntry<H> {
    metadata: ToolMetadata,
    handler: Option<H>,
}

/// Model of one registration: its metadata and its handler, if any.
#[verifier::ext_equal]
pub struct ToolEntrySpec<H> {
    pub metadata: ToolMetadataSpec,
    pub handler: Option<H>,
}

spec fn entry_view<H>(e: ToolEntry<H>) -> ToolEntrySpec<H> {
    ToolEntrySpec { metadata: e.metadata.deep_view(), handler: e.handler }
}

/// First registration named `name`, if any.
pub open spec fn lookup<H>(entries: Seq<ToolEntrySpec<H>>, name: Seq<char>) -> Option<
    ToolEntrySpec<H>,
>
    decreases entries.len(),
{
    if entries.len() == 0 {
        None
    } else if entries[0].metadata.name == name {
        Some(entries[0])
    } else {
        lookup(entries.skip(1), name)
    }
}

/// Index of the first registration named `name`, or -1.
pub open spec fn index_of<H>(entries: Seq<ToolEntrySpec<H>>, name: Seq<char>) -> int
    decreases entries.len(),
{
    if entries.len() == 0 {
        -1
    } else if entries[0].metadata.name == name {
        0
    } else {
        let r = index_of(entries.skip(1), name);
        if r == -1 {
            -1
        } else {
            r + 1
        }
    }
}

/// `index_of` is -1 or a position in the sequence.
pub proof fn lemma_index_of_bounds<H>(entries: Seq<ToolEntrySpec<H>>, name: Seq<char>)
    ensures
        -1 <= index_of(entries, name) < entries.len(),
    decreases entries.len(),
{
    if entries.len() > 0 && entries[0].metadata.name != name {
        lemma_index_of_bounds(entries.skip(1), name);
    }
}

/// The message `execute` reports for an unknown tool name.
pub open spec fn not_found_message(name: Seq<char>) -> Seq<char> {
    "Tool '"@ + name + "' not found"@
}

/// The tool definition derived from one registration's metadata: missing
/// description becomes the empty string, missing schema the empty object.
pub open spec fn definition_of(m: ToolMetadataSpec) -> ToolDefinitionSpec {
    ToolDefinitionSpec {
        name: m.name,
        description: match m.description {
            Some(d) => d,
            None => Seq::empty(),
        },
        parameters: match m.parameters_schema {
            Some(s) => s,
            None => JsonSpec::Obj(Seq::empty()),
        },
    }
}

/// Three-way outcome of executing a tool by name.
#[derive(Debug)]
pub enum ExecuteOutcome {
    /// A handler ran: its output, or the error it reported.
    Executed(Result<JsonValue, ToolExecutionError>),
    /// The tool is registered as metadata only; control returns to the
    /// external caller.
    NoHandler,
    /// The name is not registered at all; the message names the tool.
    NotFound(String),
}

/// A tool registry accumulating registrations, before application state is
/// bound.
pub struct ToolRouter<H> {
    entries: Vec<ToolEntry<H>>,
}

/// A tool registry with its shared application state bound, ready to
/// execute.
pub struct BuiltToolRouter<S, H> {
    entries: Vec<ToolEntry<H>>,
    state: S,
}

impl<H> Default for ToolRouter<H> {
    /// An empty registry.
    fn default() -> (r: ToolRouter<H>)
        ensures
            r.spec_entries() == Seq::<ToolEntrySpec<H>>::empty(),
    {
        ToolRouter::new()
    }
}

impl<H> ToolRouter<H> {
    /// The model: the registrations in registration order.
    pub closed spec fn spec_entries(&self) -> Seq<ToolEntrySpec<H>> {
        Seq::new(self.entries@.len(), |i: int| entry_view(self.entries@[i]))
    }

    /// An empty registry.
    pub fn new() -> (r: ToolRouter<H>)
        ensures
            r.spec_entries() == Seq::<ToolEntrySpec<H>>::empty(),
    {
        let r = ToolRouter { entries: Vec::new() };
        proof {
            assert(r.spec_entries() =~= Seq::<ToolEntrySpec<H>>::empty());
        }
        r
    }

    /// Registers a tool with a handler. A previous registration under the
    /// same name is replaced; otherwise the tool is appended.
    pub fn register(
        self,
        name: String,
        description: Option<String>,
        parameters_schema: Option<JsonValue>,
        handler: H,
    ) -> (r: ToolRouter<H>)
        ensures
            ({
                let e = ToolEntrySpec {
                    metadata: ToolMetadataSpec {
                        name: name@,
                        description: description.deep_view(),
                        parameters_schema: match parameters_schema {
                            Some(s) => Some(json_view(s)),
                            None => None,
                        },
                    },
                    handler: Some(handler),
                };
                let i = index_of(self.spec_entries(), name@);
                if i == -1 {
                    r.spec_entries() == self.spec_entries().push(e)
                } else {
                    r.spec_entries() == self.spec_entries().update(i, e)
                }
            }),
    {
        self.insert_entry(
            ToolEntry {
                metadata: ToolMetadata { name, description, parameters_schema },
                handler: Some(handler),
            },
        )
    }

    /// Registers a tool definition without a handler: the tool is known and
    /// advertised, but executing it yields `NoHandler` so that control
    /// returns to the external caller.
    pub fn register_definition(
        self,
        name: String,
        description: Option<String>,
        parameters_schema: Option<JsonValue>,
    ) -> (r: ToolRouter<H>)
        ensures
            ({
                let e = ToolEntrySpec {
                    metadata: ToolMetadataSpec {
                        name: name@,
                        description: description.deep_view(),
                        parameters_schema: match parameters_schema {
                            Some(s) => Some(json_view(s)),
                            None => None,
                        },
                    },
                    handler: None::<H>,
                };
                let i = index_of(self.spec_entries(), name@);
                if i == -1 {
                    r.spec_entries() == self.spec_entries().push(e)
                } else {
                    r.spec_entries() == self.spec_entries().update(i, e)
                }
            }),
    {
        self.insert_entry(
            ToolEntry {
                metadata: ToolMetadata { name, description, parameters_schema },
                handler: None,
            },
        )
    }

    fn insert_entry(self, entry: ToolEntry<H>) -> (r: ToolRouter<H>)
        ensures
            ({
                let e = entry_view(entry);
                let i = index_of(self.spec_entries(), entry.metadata.name@);
                if i == -1 {
                    r.spec_entries() == self.spec_entries().push(e)
                } else {
                    r.spec_entries() == self.spec_entries().update(i, e)
                }
            }),
    {
        let ghost pre = self.spec_entries();
        let mut s = self;
        let idx = find_index(&s.entries, &entry.metadata.name);
        match idx {
            Some(i) => {
                s.entries.set(i, entry);
                proof {
                    assert(s.spec_entries() =~= pre.update(
                        index_of(pre, entry.metadata.name@),
                        entry_view(entry),
                    ));
                }
                s
            },
            None => {
                s.entries.push(entry);
                proof {
                    assert(s.spec_entries() =~= pre.push(entry_view(entry)));
                }
                s
            },
        }
    }

    /// Binds the shared application state, consuming the registry. The same
    /// state value serves every handler invocation thereafter.
    pub fn with_state<S>(self, state: S) -> (r: BuiltToolRouter<S, H>)
        ensures
            r.spec_entries() == self.spec_entries(),
            r.spec_state() == state,
    {
        let r = BuiltToolRouter { entries: self.entries, state };
        proof {
            assert(r.spec_entries() =~= self.spec_entries());
        }
        r
    }
}

fn find_index<H>(entries: &Vec<ToolEntry<H>>, name: &String) -> (r: Option<usize>)
    ensures
        ({
            let eview = Seq::new(entries@.len(), |i: int| entry_view(entries@[i]));
            match r {
                Some(i) => i < entries@.len() && index_of(eview, name@) == i as int,
                None => index_of(eview, name@) == -1,
            }
        }),
{
    let ghost eview = Seq::new(entries@.len(), |i: int| entry_view(entries@[i]));
    let n = entries.len();
    let mut i: usize = 0;
    proof {
        assert(eview.skip(0) =~= eview);
    }
    while i < n
        invariant
            0 <= i <= n,
            n == entries@.len(),
            eview == Seq::new(entries@.len(), |k: int| entry_view(entries@[k])),
            eview.len() == n,
            index_of(eview, name@) == if index_of(eview.skip(i as int), name@) == -1 {
                -1int
            } else {
                index_of(eview.skip(i as int), name@) + i as int
            },
        decreases n - i,
    {
        proof {
            assert(eview.skip(i as int)[0] == eview[i as int]);
            assert(eview.skip(i as int).skip(1) =~= eview.skip(i as int + 1));
        }
        if entries[i].metadata.name == *name {
            return Some(i);
        }
        proof {
            assert(eview[i as int].metadata.name != name@);
            lemma_index_of_bounds(eview.skip(i as int + 1), name@);
            assert(index_of(eview.skip(i as int), name@) == (
            if index_of(eview.skip(i as int + 1), name@) == -1 {
                -1int
            } else {
                index_of(eview.skip(i as int + 1), name@) + 1
            }));
        }
        i = i + 1;
    }
    proof {
        assert(eview.skip(n as int) =~= Seq::<ToolEntrySpec<H>>::empty());
    }
    None
}

/// `lookup` and `index_of` agree: a lookup hit is the entry at the found
/// index, a miss is an absent index.
pub proof fn lemma_lookup_index<H>(entries: Seq<ToolEntrySpec<H>>, name: Seq<char>)
    ensures
        index_of(entries, name) == -1 <==> lookup(entries, name) is None,
        index_of(entries, name) != -1 ==> 0 <= index_of(entries, name) < entries.len() && lookup(
            entries,
            name,
        ) == Some(entries[index_of(entries, name)]),
    decreases entries.len(),
{
    if entries.len() > 0 && entries[0].metadata.name != name {
        lemma_lookup_index(entries.skip(1), name);
    }
}

impl<S, H> BuiltToolRouter<S, H> {
    /// The model: the registrations in registration order.
    pub closed spec fn spec_entries(&self) -> Seq<ToolEntrySpec<H>> {
        Seq::new(self.entries@.len(), |i: int| entry_view(self.entries@[i]))
    }

    /// The bound application state.
    pub closed spec fn spec_state(&self) -> S {
        self.state
    }

    /// The bound application state.
    pub fn state(&self) -> (r: &S)
        ensures
            r == self.spec_state(),
    {
        &self.state
    }

    /// The registered tool names, in registration order.
    pub fn tool_names(&self) -> (r: Vec<&String>)
        ensures
            r@.len() == self.spec_entries().len(),
            forall|i: int|
                0 <= i < r@.len() ==> #[trigger] r@[i]@ == self.spec_entries()[i].metadata.name,
    {
        let mut out: Vec<&String> = Vec::new();
        let n = self.entries.len();
        let mut i: usize = 0;
        while i < n
            invariant
                0 <= i <= n,
                n == self.entries@.len(),
                out@.len() == i,
                forall|j: int|
                    0 <= j < i ==> #[trigger] out@[j]@ == self.spec_entries()[j].metadata.name,
            decreases n - i,
        {
            out.push(&self.entries[i].metadata.name);
            i = i + 1;
        }
        out
    }

    /// The metadata of the named tool, if registered.
    pub fn tool_metadata(&self, name: &String) -> (r: Option<&ToolMetadata>)
        ensures
            match r {
                Some(m) => lookup(self.spec_entries(), name@) == Some(
                    ToolEntrySpec {
                        metadata: m.deep_view(),
                        handler: lookup(self.spec_entries(), name@).unwrap().handler,
                    },
                ),
                None => lookup(self.spec_entries(), name@) is None,
            },
    {
        let idx = find_index(&self.entries, name);
        proof {
            lemma_lookup_index(self.spec_entries(), name@);
        }
        match idx {
            Some(i) => Some(&self.entries[i].metadata),
            None => None,
        }
    }

    /// The metadata of every registered tool, in registration order.
    pub fn all_tool_metadata(&self) -> (r: Vec<&ToolMetadata>)
        ensures
            r@.len() == self.spec_entries().len(),
            forall|i: int|
                0 <= i < r@.len() ==> #[trigger] r@[i].deep_view() == self.spec_entries()[i].metadata,
    {
        let mut out: Vec<&ToolMetadata> = Vec::new();
        let n = self.entries.len();
        let mut i: usize = 0;
        while i < n
            invariant
                0 <= i <= n,
                n == self.entries@.len(),
                out@.len() == i,
                forall|j: int|
                    0 <= j < i ==> #[trigger] out@[j].deep_view() == self.spec_entries()[j].metadata,
            decreases n - i,
        {
            out.push(&self.entries[i].metadata);
            i = i + 1;
        }
        out
    }

    /// One tool definition per registered tool, in registration order: the
    /// exact shape handed to a provider's tools field.
    pub fn get_tool_definitions(&self) -> (r: Vec<ToolDefinition>)
        ensures
            r.deep_view().len() == self.spec_entries().len(),
            forall|i: int|
                0 <= i < r.deep_view().len() ==> #[trigger] r.deep_view()[i] == definition_of(
                    self.spec_entries()[i].metadata,
                ),
    {
        let mut out: Vec<ToolDefinition> = Vec::new();
        let n = self.entries.len();
        let mut i: usize = 0;
        while i < n
            invariant
                0 <= i <= n,
                n == self.entries@.len(),
                out@.len() == i,
                forall|j: int|
                    0 <= j < i ==> #[trigger] out@[j].deep_view() == definition_of(
                        self.spec_entries()[j].metadata,
                    ),
            decreases n - i,
        {
            let meta = &self.entries[i].metadata;
            let description = match &meta.description {
                Some(d) => d.clone(),
                None => String::new(),
            };
            let parameters = match &meta.parameters_schema {
                Some(s) => s.deep_clone(),
                None => JsonValue::empty_object(),
            };
            out.push(ToolDefinition { name: meta.name.clone(), description, parameters });
            i = i + 1;
        }
        out
    }
}

impl<S, H: ToolHandler<S>> BuiltToolRouter<S, H> {
    /// What `execute_tool` promises of its outcome: unknown names report
    /// `NotFound` with a message naming the tool; definition-only tools
    /// report `NoHandler`; otherwise the registered handler ran on the bound
    /// state and `input`, and the outcome satisfies the handler's relation.
    pub open spec fn spec_outcome(&self, name: Seq<char>, input: JsonSpec, r: ExecuteOutcome) -> bool {
        match lookup(self.spec_entries(), name) {
            None => r matches ExecuteOutcome::NotFound(msg) && msg@ == not_found_message(name),
            Some(e) => match e.handler {
                None => r is NoHandler,
                Some(h) => r matches ExecuteOutcome::Executed(out) && h.post(
                    self.spec_state(),
                    input,
                    out,
                ),
            },
        }
    }

    /// Executes a tool by name on the bound state.
    pub fn execute_tool(&self, name: &String, input: &JsonValue) -> (r: ExecuteOutcome)
        ensures
            self.spec_outcome(name@, input.deep_view(), r),
    {
        let idx = find_index(&self.entries, name);
        proof {
            lemma_lookup_index(self.spec_entries(), name@);
        }
        match idx {
            Some(i) => match &self.entries[i].handler {
                Some(h) => ExecuteOutcome::Executed(h.call(&self.state, input)),
                None => ExecuteOutcome::NoHandler,
            },
            None => {
                let mut msg = "Tool '".to_owned();
                msg.append(name.as_str());
                msg.append("' not found");
                ExecuteOutcome::NotFound(msg)
            },
        }
    }
}

} // verus!
