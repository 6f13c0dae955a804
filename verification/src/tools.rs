//! Tool definitions, the builder that accumulates them, and the registry
//! that stores one definition per tool name.
//!
//! A [`ToolBuilder`] gathers a name, a description and a parameter list and
//! finalizes into an immutable [`Tool`].  A [`Tools`] registry keeps tools
//! under their names, last registration winning.  Call requests and call
//! results ([`ToolCall`], [`ToolCallResult`]) are the plain values dispatch
//! works on.

use crate::keyed;
use vstd::prelude::*;
use vstd::string::StringExecFns;

verus! {

/// The one kind of tool this protocol knows: a callable function.
#[derive(Clone, Copy, PartialEq, Eq, Structural, Debug)]
pub enum ToolType {
    Function,
}

/// One declared parameter of a tool: the schema tag of its type, its
/// description, and, for enum-constrained parameters, the admissible values.
#[derive(Debug)]
pub struct ToolParameter {
    /// The schema tag of the parameter's type.
    pub argument_type: String,
    /// The parameter's human-readable description.
    pub description: String,
    /// The admissible string values of an enum-constrained parameter;
    /// absent for plainly typed parameters.
    pub argument_enum: Option<Vec<String>>,
}

/// The parameter block of a tool: an object schema with one property per
/// parameter name and the list of names a call must supply.
#[derive(Debug)]
pub struct ToolParameters {
    /// The schema kind of the block; always the tag `"object"`.
    pub parameter_type: String,
    /// Parameter name to its declaration, keys unique.
    pub properties: Vec<(String, ToolParameter)>,
    /// The names whose parameters a caller is required to supply.
    pub required: Vec<String>,
}

impl ToolParameters {
    /// Well-formedness: the block is tagged `"object"`, no parameter name
    /// owns two properties, and every required name names a property.
    pub open spec fn wf(self) -> bool {
        &&& self.parameter_type@ == "object"@
        &&& keyed::keys_unique(self.properties@)
        &&& forall|i: int|
            0 <= i < self.required@.len() ==> keyed::has_key(
                self.properties@,
                #[trigger] self.required@[i]@,
            )
    }
}

impl Default for ToolParameters {
    /// The empty parameter block: an object schema with no properties and
    /// no required names.
    fn default() -> (r: Self)
        ensures
            r.parameter_type@ == "object"@,
            r.properties@ == Seq::<(String, ToolParameter)>::empty(),
            r.required@ == Seq::<String>::empty(),
            r.wf(),
    {
        let r = ToolParameters {
            parameter_type: String::from_str("object"),
            properties: Vec::new(),
            required: Vec::new(),
        };
        proof {
            assert(r.properties@ =~= Seq::<(String, ToolParameter)>::empty());
            assert(r.required@ =~= Seq::<String>::empty());
        }
        r
    }
}

/// The function a tool exposes: its name, description and parameter block.
#[derive(Debug)]
pub struct ToolFunction {
    /// The tool's name, unique within a registry.
    pub name: String,
    /// The tool's human-readable description.
    pub description: String,
    /// The tool's parameter block.
    pub parameters: ToolParameters,
}

/// An immutable tool definition, as presented to the agent.
#[derive(Debug)]
pub struct Tool {
    /// The kind of the tool; always [`ToolType::Function`].
    pub tool_type: ToolType,
    /// The function the tool exposes.
    pub function: ToolFunction,
}

/// The function part of a call request: the tool's name and the encoded
/// argument payload.
#[derive(Debug)]
pub struct ToolCallFunction {
    /// The name of the tool the agent asks for.
    pub name: String,
    /// The arguments of the call, as one encoded-object string.
    pub arguments: String,
}

/// One call request from the agent, read-only to this crate.
#[derive(Debug)]
pub struct ToolCall {
    /// The call's identifier; every result carries it back.
    pub id: String,
    /// The kind of the call; always [`ToolType::Function`].
    pub tool_type: ToolType,
    /// The requested function and its arguments.
    pub function: ToolCallFunction,
}

/// Why finalizing a builder failed.
#[derive(Clone, Copy, PartialEq, Eq, Structural, Debug)]
pub enum ToolBuilderError {
    /// `build` was called although no name had been set.
    NameNotSet,
    /// `build` was called although no description had been set.
    DescriptionNotSet,
}

impl ToolBuilderError {
    /// The error's message.
    pub fn message(&self) -> (m: &'static str)
        ensures
            *self == ToolBuilderError::NameNotSet ==> m@ == "Name not set"@,
            *self == ToolBuilderError::DescriptionNotSet ==> m@ == "Description not set"@,
    {
        match self {
            ToolBuilderError::NameNotSet => "Name not set",
            ToolBuilderError::DescriptionNotSet => "Description not set",
        }
    }
}

/// An in-progress tool definition: a fluent accumulator that every call
/// consumes and returns, finalized by [`ToolBuilder::build`].
pub struct ToolBuilder {
    /// The tool name, once set.
    pub name: Option<String>,
    /// The tool description, once set.
    pub description: Option<String>,
    /// The parameter block, once any parameter was added.
    pub parameters: Option<ToolParameters>,
}

/// The properties the builder has accumulated so far.
pub open spec fn spec_props(b: ToolBuilder) -> Seq<(String, ToolParameter)> {
    match b.parameters {
        Some(p) => p.properties@,
        None => Seq::empty(),
    }
}

/// The required names the builder has accumulated so far.
pub open spec fn spec_required(b: ToolBuilder) -> Seq<String> {
    match b.parameters {
        Some(p) => p.required@,
        None => Seq::empty(),
    }
}

impl Default for ToolBuilder {
    /// A builder with nothing set yet.
    fn default() -> (r: Self)
        ensures
            r.name is None,
            r.description is None,
            r.parameters is None,
    {
        ToolBuilder { name: None, description: None, parameters: None }
    }
}

impl ToolBuilder {
    /// Well-formedness: the accumulated parameter block, if any, is.
    pub open spec fn wf(self) -> bool {
        match self.parameters {
            Some(p) => p.wf(),
            None => true,
        }
    }

    /// A builder with nothing set yet.
    pub fn new() -> (r: Self)
        ensures
            r.name is None,
            r.description is None,
            r.parameters is None,
            r.wf(),
    {
        Self::default()
    }

    /// Set the tool's name.
    pub fn name(self, name: &str) -> (r: Self)
        ensures
            r.name is Some && r.name->0@ == name@,
            r.description == self.description,
            r.parameters == self.parameters,
    {
        ToolBuilder {
            name: Some(name.to_owned()),
            description: self.description,
            parameters: self.parameters,
        }
    }

    /// Set the tool's description.
    pub fn description(self, description: &str) -> (r: Self)
        ensures
            r.description is Some && r.description->0@ == description@,
            r.name == self.name,
            r.parameters == self.parameters,
    {
        ToolBuilder {
            name: self.name,
            description: Some(description.to_owned()),
            parameters: self.parameters,
        }
    }

    /// Store `argument` under `name` in the accumulated properties and, for
    /// a required parameter, append `name` to the required list.
    fn add_property(self, name: &str, argument: ToolParameter, require: bool) -> (r: Self)
        requires
            self.wf(),
        ensures
            r.name == self.name,
            r.description == self.description,
            r.wf(),
            r.parameters is Some,
            props_updated(spec_props(self), spec_props(r), name@, argument),
            require ==> required_appended(spec_required(self), spec_required(r), name@),
            !require ==> spec_required(r) == spec_required(self),
    {
        let mut parameters = match self.parameters {
            Some(p) => p,
            None => ToolParameters::default(),
        };
        let key = name.to_owned();
        proof {
            keyed::lemma_store(parameters.properties@, key, argument);
        }
        keyed::store(&mut parameters.properties, key, argument);
        if require {
            parameters.required.push(name.to_owned());
        }
        let r = ToolBuilder {
            name: self.name,
            description: self.description,
            parameters: Some(parameters),
        };
        proof {
            assert forall|i: int| 0 <= i < spec_required(r).len() implies keyed::has_key(
                spec_props(r),
                #[trigger] spec_required(r)[i]@,
            ) by {
                if spec_required(r)[i]@ != name@ {
                    assert(keyed::has_key(spec_props(self), spec_required(r)[i]@));
                }
            }
        }
        r
    }

    /// Declare a required parameter of type `T`; its schema tag is `T`'s.
    /// A parameter already declared under `name` is overwritten, and `name`
    /// is appended to the required list even when it already stood there.
    pub fn add_parameter<T: crate::Jsonify>(self, name: &str, description: &str) -> (r: Self)
        requires
            self.wf(),
        ensures
            r.name == self.name,
            r.description == self.description,
            r.wf(),
            r.parameters is Some,
            keyed::has_key(spec_props(r), name@),
            ({
                let p = keyed::value_of(spec_props(r), name@);
                &&& p.argument_type@ == T::schema_tag()
                &&& p.description@ == description@
                &&& p.argument_enum is None
            }),
            props_preserved_except(spec_props(self), spec_props(r), name@),
            required_appended(spec_required(self), spec_required(r), name@),
    {
        let argument = ToolParameter {
            argument_type: T::jsonify(),
            description: description.to_owned(),
            argument_enum: None,
        };
        self.add_property(name, argument, true)
    }

    /// Declare an optional parameter of type `T`: as [`ToolBuilder::add_parameter`],
    /// but the required list is left as it stands.
    pub fn add_optional_parameter<T: crate::Jsonify>(self, name: &str, description: &str) -> (r:
        Self)
        requires
            self.wf(),
        ensures
            r.name == self.name,
            r.description == self.description,
            r.wf(),
            r.parameters is Some,
            keyed::has_key(spec_props(r), name@),
            ({
                let p = keyed::value_of(spec_props(r), name@);
                &&& p.argument_type@ == T::schema_tag()
                &&& p.description@ == description@
                &&& p.argument_enum is None
            }),
            props_preserved_except(spec_props(self), spec_props(r), name@),
            spec_required(r) == spec_required(self),
    {
        let argument = ToolParameter {
            argument_type: T::jsonify(),
            description: description.to_owned(),
            argument_enum: None,
        };
        self.add_property(name, argument, false)
    }

    /// Declare a required enum-constrained parameter: its schema tag is
    /// fixed to `"string"` whatever its values, and `enum_values` is kept in
    /// the given order.
    pub fn add_enum_parameter(self, name: &str, description: &str, enum_values: Vec<String>) -> (r:
        Self)
        requires
            self.wf(),
        ensures
            r.name == self.name,
            r.description == self.description,
            r.wf(),
            r.parameters is Some,
            keyed::has_key(spec_props(r), name@),
            ({
                let p = keyed::value_of(spec_props(r), name@);
                &&& p.argument_type@ == "string"@
                &&& p.description@ == description@
                &&& p.argument_enum == Some(enum_values)
            }),
            props_preserved_except(spec_props(self), spec_props(r), name@),
            required_appended(spec_required(self), spec_required(r), name@),
    {
        let argument = ToolParameter {
            argument_type: String::from_str("string"),
            description: description.to_owned(),
            argument_enum: Some(enum_values),
        };
        self.add_property(name, argument, true)
    }

    /// Declare an optional enum-constrained parameter: as
    /// [`ToolBuilder::add_enum_parameter`], but the required list is left as
    /// it stands.
    pub fn add_optional_enum_parameter(
        self,
        name: &str,
        description: &str,
        enum_values: Vec<String>,
    ) -> (r: Self)
        requires
            self.wf(),
        ensures
            r.name == self.name,
            r.description == self.description,
            r.wf(),
            r.parameters is Some,
            keyed::has_key(spec_props(r), name@),
            ({
                let p = keyed::value_of(spec_props(r), name@);
                &&& p.argument_type@ == "string"@
                &&& p.description@ == description@
                &&& p.argument_enum == Some(enum_values)
            }),
            props_preserved_except(spec_props(self), spec_props(r), name@),
            spec_required(r) == spec_required(self),
    {
        let argument = ToolParameter {
            argument_type: String::from_str("string"),
            description: description.to_owned(),
            argument_enum: Some(enum_values),
        };
        self.add_property(name, argument, false)
    }

    /// Finalize the builder.  Fails with [`ToolBuilderError::NameNotSet`]
    /// exactly when no name was set, then with
    /// [`ToolBuilderError::DescriptionNotSet`] exactly when no description
    /// was set; otherwise returns the immutable definition carrying whatever
    /// parameters were accumulated — none at all is valid.
    pub fn build(self) -> (r: Result<Tool, ToolBuilderError>)
        requires
            self.wf(),
        ensures
            self.name is None ==> r == Err::<Tool, ToolBuilderError>(ToolBuilderError::NameNotSet),
            self.name is Some && self.description is None ==> r == Err::<Tool, ToolBuilderError>(
                ToolBuilderError::DescriptionNotSet,
            ),
            self.name is Some && self.description is Some ==> r is Ok && ({
                let t = r->Ok_0;
                &&& t.tool_type == ToolType::Function
                &&& t.function.name == self.name->0
                &&& t.function.description == self.description->0
                &&& t.function.parameters.parameter_type@ == "object"@
                &&& t.function.parameters.properties@ == spec_props(self)
                &&& t.function.parameters.required@ == spec_required(self)
                &&& t.function.parameters.wf()
            }),
    {
        let name = match self.name {
            Some(n) => n,
            None => {
                return Err(ToolBuilderError::NameNotSet);
            },
        };
        let description = match self.description {
            Some(d) => d,
            None => {
                return Err(ToolBuilderError::DescriptionNotSet);
            },
        };
        let parameters = match self.parameters {
            Some(p) => p,
            None => ToolParameters::default(),
        };
        Ok(Tool { tool_type: ToolType::Function, function: ToolFunction { name, description, parameters } })
    }
}

/// The tool registry: one entry per tool name, each carrying the tool's
/// definition; the handler registered beside a definition is the host's
/// business and lives outside this crate.
pub struct Tools(pub Vec<(String, Tool)>);

impl Tools {
    /// Well-formedness: no name owns two entries, and every entry stands
    /// under the name of the tool it carries.
    pub open spec fn wf(self) -> bool {
        &&& keyed::keys_unique(self.0@)
        &&& forall|i: int|
            0 <= i < self.0@.len() ==> (#[trigger] self.0@[i]).0@ == self.0@[i].1.function.name@
    }

    /// The empty registry.
    pub fn new() -> (r: Self)
        ensures
            r.0@ == Seq::<(String, Tool)>::empty(),
            r.wf(),
    {
        let r = Tools(Vec::new());
        proof {
            assert(r.0@ =~= Seq::<(String, Tool)>::empty());
        }
        r
    }

    /// Register `tool` under its own name.  A tool already registered under
    /// that name is overwritten — the last registration wins — and every
    /// other registration is untouched.
    pub fn add_tool(self, tool: Tool) -> (r: Self)
        requires
            self.wf(),
        ensures
            r.0@ == keyed::spec_store(self.0@, tool.function.name, tool),
            r.wf(),
            keyed::has_key(r.0@, tool.function.name@),
            keyed::value_of(r.0@, tool.function.name@) == tool,
    {
        proof {
            keyed::lemma_store(self.0@, tool.function.name, tool);
        }
        let mut entries = self.0;
        let name = tool.function.name.clone();
        keyed::store(&mut entries, name, tool);
        let r = Tools(entries);
        proof {
            let stored = keyed::spec_store(self.0@, tool.function.name, tool);
            if keyed::has_key(self.0@, tool.function.name@) {
                let i = keyed::key_index(self.0@, tool.function.name@);
                assert(0 <= i < self.0@.len() && self.0@[i].0@ == tool.function.name@);
                assert forall|j: int| 0 <= j < stored.len() implies (#[trigger] stored[j]).0@
                    == stored[j].1.function.name@ by {
                    if j != i {
                        assert(stored[j] == self.0@[j]);
                    }
                }
            } else {
                assert forall|j: int| 0 <= j < stored.len() implies (#[trigger] stored[j]).0@
                    == stored[j].1.function.name@ by {
                    if j < self.0@.len() {
                        assert(stored[j] == self.0@[j]);
                    }
                }
            }
        }
        r
    }

    /// Borrow the tool registered under `name`, or learn that none is.
    pub fn get_tool<'a>(&'a self, name: &String) -> (r: Option<&'a Tool>)
        requires
            self.wf(),
        ensures
            match r {
                Some(t) => keyed::has_key(self.0@, name@) && *t == keyed::value_of(self.0@, name@),
                None => !keyed::has_key(self.0@, name@),
            },
    {
        keyed::lookup(&self.0, name)
    }

    /// The registered definitions, in registry order: what a presentation
    /// of the registry to the agent serializes, handlers never among it.
    pub fn schemas<'a>(&'a self) -> (v: Vec<&'a Tool>)
        ensures
            v@.len() == self.0@.len(),
            forall|i: int| 0 <= i < v@.len() ==> *(#[trigger] v@[i]) == self.0@[i].1,
    {
        let mut v: Vec<&Tool> = Vec::new();
        let n = self.0.len();
        let mut i: usize = 0;
        while i < n
            invariant
                i <= n,
                n == self.0.len(),
                v@.len() == i,
                forall|j: int| 0 <= j < i ==> *(#[trigger] v@[j]) == self.0@[j].1,
            decreases n - i,
        {
            v.push(&self.0[i].1);
            i += 1;
        }
        v
    }
}

/// Law: registering two tools bearing one name leaves the registry with
/// exactly one entry under that name, and it carries the tool registered
/// second; its schema therefore appears exactly once in a serialization of
/// the registry.
pub proof fn lemma_register_overwrites(tools: Tools, first: Tool, second: Tool)
    requires
        tools.wf(),
        first.function.name@ == second.function.name@,
    ensures
        ({
            let twice = keyed::spec_store(
                keyed::spec_store(tools.0@, first.function.name, first),
                second.function.name,
                second,
            );
            &&& keyed::has_key(twice, second.function.name@)
            &&& keyed::value_of(twice, second.function.name@) == second
            &&& forall|i: int|
                0 <= i < twice.len() && (#[trigger] twice[i]).0@ == second.function.name@
                    ==> twice[i].1 == second
        }),
{
    keyed::lemma_store_overwrites(
        tools.0@,
        first.function.name,
        second.function.name,
        first,
        second,
    );
    let twice = keyed::spec_store(
        keyed::spec_store(tools.0@, first.function.name, first),
        second.function.name,
        second,
    );
    assert forall|i: int|
        0 <= i < twice.len() && (#[trigger] twice[i]).0@ == second.function.name@ implies twice[i].1
        == second by {
        assert(i == keyed::key_index(twice, second.function.name@));
    }
}

/// The answer to one call request: the identifier of the call it answers
/// and the answer itself, both plain strings.
#[derive(Debug)]
pub struct ToolCallResult {
    /// The identifier of the call this result answers.
    pub tool_call_id: String,
    /// The stringified answer: a success payload or an error message.
    pub content: String,
}

/// The results of one dispatch batch, in request order.
#[derive(Debug)]
pub struct ToolsResults(pub Vec<ToolCallResult>);

impl ToolsResults {
    /// An empty result list.
    pub fn new() -> (r: Self)
        ensures
            r.0@ == Seq::<ToolCallResult>::empty(),
    {
        let r = ToolsResults(Vec::new());
        proof {
            assert(r.0@ =~= Seq::<ToolCallResult>::empty());
        }
        r
    }

    /// Append one result.
    pub fn add_result(&mut self, result: ToolCallResult)
        ensures
            final(self).0@ == old(self).0@.push(result),
    {
        self.0.push(result);
    }
}

/// After an update of the properties under `name`, every other name keeps
/// its binding, and the entry count grew exactly when `name` was fresh.
pub open spec fn props_preserved_except(
    before: Seq<(String, ToolParameter)>,
    after: Seq<(String, ToolParameter)>,
    name: Seq<char>,
) -> bool {
    &&& forall|k: Seq<char>|
        k != name ==> #[trigger] keyed::has_key(after, k) == keyed::has_key(before, k)
    &&& forall|k: Seq<char>|
        k != name && keyed::has_key(before, k) ==> #[trigger] keyed::value_of(after, k)
            == keyed::value_of(before, k)
    &&& after.len() == if keyed::has_key(before, name) {
        before.len()
    } else {
        before.len() + 1
    }
}

/// The properties `after` are `before` with `p` stored under `name`.
pub open spec fn props_updated(
    before: Seq<(String, ToolParameter)>,
    after: Seq<(String, ToolParameter)>,
    name: Seq<char>,
    p: ToolParameter,
) -> bool {
    &&& keyed::has_key(after, name)
    &&& keyed::value_of(after, name) == p
    &&& props_preserved_except(before, after, name)
}

/// The required list `after` is `before` with one entry reading `name`
/// appended; what stood there before is untouched, duplicates included.
pub open spec fn required_appended(before: Seq<String>, after: Seq<String>, name: Seq<char>) -> bool {
    &&& after.len() == before.len() + 1
    &&& forall|i: int| 0 <= i < before.len() ==> after[i] == before[i]
    &&& after[after.len() - 1]@ == name
}

} // verus!
