//! The registry of the tools that the agent may call.

use vstd::prelude::*;
use vstd::string::StringExecFns;
use crate::events::{ToolName, ToolSpec};
use crate::json::{Json, JsonView};
use crate::text::concat2;
use crate::tools::schemas::{
    code_symbols_input_schema, code_symbols_input_schema_view, code_symbols_output_schema,
    code_symbols_output_schema_view, fs_apply_patch_input_schema,
    fs_apply_patch_input_schema_view, fs_apply_patch_output_schema,
    fs_apply_patch_output_schema_view, fs_find_input_schema, fs_find_input_schema_view,
    fs_find_output_schema, fs_find_output_schema_view, fs_read_input_schema,
    fs_read_input_schema_view, fs_read_output_schema, fs_read_output_schema_view,
    fs_search_input_schema, fs_search_input_schema_view, fs_search_output_schema,
    fs_search_output_schema_view, fs_write_input_schema, fs_write_input_schema_view,
    fs_write_output_schema, fs_write_output_schema_view, large_context_fetch_input_schema,
    large_context_fetch_input_schema_view, large_context_fetch_output_schema,
    large_context_fetch_output_schema_view, shell_exec_input_schema,
    shell_exec_input_schema_view, shell_exec_output_schema, shell_exec_output_schema_view,
};

verus! {

/// The tool at a position of the catalog.
pub open spec fn catalog_tool(i: int) -> ToolName {
    if i == 0 {
        ToolName::FsRead
    } else if i == 1 {
        ToolName::FsSearch
    } else if i == 2 {
        ToolName::FsWrite
    } else if i == 3 {
        ToolName::FsApplyPatch
    } else if i == 4 {
        ToolName::FsFind
    } else if i == 5 {
        ToolName::ShellExec
    } else if i == 6 {
        ToolName::CodeSymbols
    } else {
        ToolName::LargeContextFetch
    }
}

/// The schema of a tool's arguments.
pub open spec fn input_schema_view(tool: ToolName) -> JsonView {
    match tool {
        ToolName::FsRead => fs_read_input_schema_view(),
        ToolName::FsSearch => fs_search_input_schema_view(),
        ToolName::FsWrite => fs_write_input_schema_view(),
        ToolName::FsApplyPatch => fs_apply_patch_input_schema_view(),
        ToolName::FsFind => fs_find_input_schema_view(),
        ToolName::ShellExec => shell_exec_input_schema_view(),
        ToolName::CodeSymbols => code_symbols_input_schema_view(),
        ToolName::LargeContextFetch => large_context_fetch_input_schema_view(),
    }
}

/// The schema of a tool's result.
pub open spec fn output_schema_view(tool: ToolName) -> JsonView {
    match tool {
        ToolName::FsRead => fs_read_output_schema_view(),
        ToolName::FsSearch => fs_search_output_schema_view(),
        ToolName::FsWrite => fs_write_output_schema_view(),
        ToolName::FsApplyPatch => fs_apply_patch_output_schema_view(),
        ToolName::FsFind => fs_find_output_schema_view(),
        ToolName::ShellExec => shell_exec_output_schema_view(),
        ToolName::CodeSymbols => code_symbols_output_schema_view(),
        ToolName::LargeContextFetch => large_context_fetch_output_schema_view(),
    }
}

/// Whether a tool emits its output while it runs.
pub open spec fn is_streaming(tool: ToolName) -> bool {
    tool == ToolName::ShellExec
}

/// Whether a tool may change the filesystem or the environment.
pub open spec fn has_side_effects(tool: ToolName) -> bool {
    tool == ToolName::FsWrite || tool == ToolName::FsApplyPatch || tool == ToolName::ShellExec
}

/// The upper bound on a tool's execution, in milliseconds.
pub open spec fn timeout_of(tool: ToolName) -> u64 {
    match tool {
        ToolName::FsRead => 5000,
        ToolName::FsSearch => 10000,
        ToolName::FsWrite => 5000,
        ToolName::FsApplyPatch => 10000,
        ToolName::FsFind => 10000,
        ToolName::ShellExec => 30000,
        ToolName::CodeSymbols => 5000,
        ToolName::LargeContextFetch => 60000,
    }
}

/// `spec` is the catalog entry of `tool`.
pub open spec fn is_entry_of(spec: ToolSpec, tool: ToolName) -> bool {
    &&& spec.name == tool
    &&& spec.input_schema@ == input_schema_view(tool)
    &&& spec.output_schema@ == output_schema_view(tool)
    &&& spec.streaming == is_streaming(tool)
    &&& spec.side_effects == has_side_effects(tool)
    &&& spec.needs_approval == has_side_effects(tool)
    &&& spec.timeout_ms == Some(timeout_of(tool))
}

/// The entries of the `required` array of a schema.
pub open spec fn required_entries(schema: JsonView) -> Seq<JsonView> {
    match schema.get("required"@) {
        Some(JsonView::Array(items)) => items,
        _ => Seq::empty(),
    }
}

/// The first name among `required` that `args` has no member for.
pub open spec fn first_missing(required: Seq<JsonView>, args: JsonView) -> Option<Seq<char>>
    decreases required.len(),
{
    if required.len() == 0 {
        None
    } else {
        match required[0] {
            JsonView::Str(name) => if !args.has_key(name) {
                Some(name)
            } else {
                first_missing(required.skip(1), args)
            },
            _ => first_missing(required.skip(1), args),
        }
    }
}

/// What validating `args` against the schema of `tool` answers: nothing
/// where they pass, else the reason.
pub open spec fn validation_error(tool: ToolName, args: JsonView) -> Option<Seq<char>> {
    if !(args is Object) {
        Some("Arguments must be an object"@)
    } else {
        match first_missing(required_entries(input_schema_view(tool)), args) {
            Some(name) => Some("Missing required field: "@ + name),
            None => None,
        }
    }
}

/// Registry for managing available tools and their specifications.
pub struct ToolRegistry {
    specs: Vec<ToolSpec>,
}

fn entry(tool: ToolName) -> (spec: ToolSpec)
    ensures
        is_entry_of(spec, tool),
{
    let input_schema = match tool {
        ToolName::FsRead => fs_read_input_schema(),
        ToolName::FsSearch => fs_search_input_schema(),
        ToolName::FsWrite => fs_write_input_schema(),
        ToolName::FsApplyPatch => fs_apply_patch_input_schema(),
        ToolName::FsFind => fs_find_input_schema(),
        ToolName::ShellExec => shell_exec_input_schema(),
        ToolName::CodeSymbols => code_symbols_input_schema(),
        ToolName::LargeContextFetch => large_context_fetch_input_schema(),
    };
    let output_schema = match tool {
        ToolName::FsRead => fs_read_output_schema(),
        ToolName::FsSearch => fs_search_output_schema(),
        ToolName::FsWrite => fs_write_output_schema(),
        ToolName::FsApplyPatch => fs_apply_patch_output_schema(),
        ToolName::FsFind => fs_find_output_schema(),
        ToolName::ShellExec => shell_exec_output_schema(),
        ToolName::CodeSymbols => code_symbols_output_schema(),
        ToolName::LargeContextFetch => large_context_fetch_output_schema(),
    };
    let streaming = match tool {
        ToolName::ShellExec => true,
        _ => false,
    };
    let side_effects = match tool {
        ToolName::FsWrite => true,
        ToolName::FsApplyPatch => true,
        ToolName::ShellExec => true,
        _ => false,
    };
    let timeout_ms: u64 = match tool {
        ToolName::FsRead => 5000,
        ToolName::FsSearch => 10000,
        ToolName::FsWrite => 5000,
        ToolName::FsApplyPatch => 10000,
        ToolName::FsFind => 10000,
        ToolName::ShellExec => 30000,
        ToolName::CodeSymbols => 5000,
        ToolName::LargeContextFetch => 60000,
    };
    ToolSpec {
        name: tool,
        input_schema,
        output_schema,
        streaming,
        side_effects,
        needs_approval: side_effects,
        timeout_ms: Some(timeout_ms),
    }
}

impl ToolRegistry {
    #[verifier::type_invariant]
    spec fn holds_catalog(&self) -> bool {
        &&& self.specs@.len() == 8
        &&& forall|i: int| 0 <= i < 8 ==> is_entry_of(#[trigger] self.specs@[i], catalog_tool(i))
    }

    /// The specifications that the registry holds, in order.
    pub closed spec fn entries(&self) -> Seq<ToolSpec> {
        self.specs@
    }

    /// The registry of the built-in tools: it holds the specification of
    /// each tool of the catalog, in the order of the catalog.
    pub fn new() -> (r: Self)
        ensures
            r.entries().len() == 8,
            forall|i: int| 0 <= i < 8 ==> is_entry_of(#[trigger] r.entries()[i], catalog_tool(i)),
    {
        let mut specs: Vec<ToolSpec> = Vec::new();
        Self::register_builtin_tools(&mut specs);
        ToolRegistry { specs }
    }

    /// Registers all built-in tools, in the order of the catalog.
    fn register_builtin_tools(specs: &mut Vec<ToolSpec>)
        requires
            old(specs)@.len() == 0,
        ensures
            final(specs)@.len() == 8,
            forall|i: int| 0 <= i < 8 ==> is_entry_of(#[trigger] final(specs)@[i], catalog_tool(i)),
    {
        specs.push(entry(ToolName::FsRead));
        specs.push(entry(ToolName::FsSearch));
        specs.push(entry(ToolName::FsWrite));
        specs.push(entry(ToolName::FsApplyPatch));
        specs.push(entry(ToolName::FsFind));
        specs.push(entry(ToolName::ShellExec));
        specs.push(entry(ToolName::CodeSymbols));
        specs.push(entry(ToolName::LargeContextFetch));
    }

    /// All tool specifications, in the order of the catalog.
    pub fn get_all_specs(&self) -> (r: Vec<&ToolSpec>)
        ensures
            r@.len() == 8,
            forall|i: int| 0 <= i < 8 ==> is_entry_of(*#[trigger] r@[i], catalog_tool(i)),
            forall|i: int| 0 <= i < 8 ==> *#[trigger] r@[i] == self.entries()[i],
    {
        proof {
            use_type_invariant(self);
        }
        let mut out: Vec<&ToolSpec> = Vec::new();
        let mut i: usize = 0;
        while i < self.specs.len()
            invariant
                i <= self.specs@.len(),
                out@.len() == i,
                forall|j: int| 0 <= j < i ==> *#[trigger] out@[j] == self.specs@[j],
            decreases self.specs.len() - i,
        {
            out.push(&self.specs[i]);
            i += 1;
        }
        out
    }

    /// The specification of a tool. Every tool of the catalog has one.
    pub fn get_spec(&self, tool: &ToolName) -> (r: Option<&ToolSpec>)
        ensures
            r matches Some(spec) && is_entry_of(*spec, *tool),
            r matches Some(spec) && self.entries().contains(*spec),
    {
        proof {
            use_type_invariant(self);
        }
        let i = tool.index();
        assert(catalog_tool(i as int) == *tool);
        Some(&self.specs[i])
    }

    /// Validates arguments against the schema of a tool: they must be an
    /// object that has a member for every required field.
    pub fn validate_args(&self, tool: &ToolName, args: &Json) -> (r: Result<(), String>)
        ensures
            match r {
                Ok(_) => validation_error(*tool, args@) is None,
                Err(e) => validation_error(*tool, args@) == Some(e@),
            },
    {
        let spec = match self.get_spec(tool) {
            Some(spec) => spec,
            None => {
                return Err(concat2("Unknown tool: ", tool.variant_name()));
            },
        };
        if !args.is_object() {
            return Err(String::from_str("Arguments must be an object"));
        }
        let required = match spec.input_schema.get("required") {
            Some(r) => match r.as_array() {
                Some(items) => items,
                None => {
                    return Ok(());
                },
            },
            None => {
                return Ok(());
            },
        };
        let ghost entries = required_entries(input_schema_view(*tool));
        assert(entries == crate::json::items_view(required@));
        let mut i: usize = 0;
        assert(entries.skip(0) == entries);
        while i < required.len()
            invariant
                i <= required.len(),
                args@ is Object,
                entries == required_entries(input_schema_view(*tool)),
                entries == crate::json::items_view(required@),
                first_missing(entries, args@) == first_missing(entries.skip(i as int), args@),
            decreases required.len() - i,
        {
            proof {
                assert(entries.skip(i as int).skip(1) == entries.skip(i + 1));
                assert(entries.skip(i as int)[0] == required@[i as int]@);
            }
            match required[i].as_str() {
                Some(name) => {
                    if !args.contains_key(name) {
                        return Err(concat2("Missing required field: ", name));
                    }
                },
                None => {},
            }
            i += 1;
        }
        Ok(())
    }
}

impl Default for ToolRegistry {
    /// The registry of the built-in tools.
    fn default() -> Self {
        Self::new()
    }
}

} // verus!
