//! The tool registry: the six tools the server offers, and what each
//! returns.
//!
//! A tool returns a text on success and a message on failure. A failure of a
//! tool is no failure of the protocol: it travels in a successful response,
//! flagged as an error.

use serde_json::Value;
use vstd::prelude::*;
use vstd::string::StringExecFns;

use crate::compose::compose_prompt;
use crate::compose::composed_prompt;
use crate::encoding::agent_summaries;
use crate::encoding::agent_summaries_tree;
use crate::encoding::agent_tree;
use crate::encoding::skill_summaries;
use crate::encoding::skill_summaries_tree;
use crate::encoding::skill_tree;
use crate::instructions::instructions_listing;
use crate::instructions::render_instructions_listing;
use crate::json::empty_object;
use crate::json::get_str;
use crate::json::insert;
use crate::json::insert_str;
use crate::json::json_pretty;
use crate::json::object;
use crate::json::strings;
use crate::json::text_array;
use crate::json::text_member;
use crate::json::to_pretty_text;
use crate::json::tree_of;
use crate::json::with_member;
use crate::json::JsonTree;
use crate::lookup::find_agent;
use crate::lookup::find_skill;
use crate::lookup::resolve_agent;
use crate::lookup::resolve_skill;
use crate::protocol::tool_views;
use crate::protocol::Tool;
use crate::protocol::ToolView;
use crate::snapshot::McpServer;
use crate::snapshot::SnapshotView;
use crate::text::str_eq;

verus! {

// ---------------------------------------------------------------------------
// The catalogue
// ---------------------------------------------------------------------------

/// The schema of a text argument.
pub open spec fn text_property(description: Seq<char>) -> JsonTree {
    JsonTree::Object(
        map!["type"@ => JsonTree::Str("string"@), "description"@ => JsonTree::Str(description)],
    )
}

/// The schema of a tool that takes no argument.
pub open spec fn schema_without_argument() -> JsonTree {
    JsonTree::Object(map!["type"@ => JsonTree::Str("object"@), "properties"@ => empty_object()])
}

/// The schema of a tool that takes one text argument, required or not.
pub open spec fn schema_with_argument(
    name: Seq<char>,
    description: Seq<char>,
    required: bool,
) -> JsonTree {
    let base = JsonTree::Object(
        map![
            "type"@ => JsonTree::Str("object"@),
            "properties"@ => JsonTree::Object(map![name => text_property(description)]),
        ],
    );
    if required {
        with_member(base, "required"@, text_array(seq![name]))
    } else {
        base
    }
}

/// The six tools, in the order they are listed.
pub open spec fn catalogue() -> Seq<ToolView> {
    seq![
        ToolView {
            name: "get_agent"@,
            description: "Get a Prompt Forge agent's full configuration including system prompt, personality, and attached skills/instructions"@,
            input_schema: schema_with_argument(
                "agent_id"@,
                "The ID of the agent to retrieve. Use 'default' for the default agent."@,
                true,
            ),
        },
        ToolView {
            name: "list_agents"@,
            description: "List all available Prompt Forge agents"@,
            input_schema: schema_without_argument(),
        },
        ToolView {
            name: "get_instructions"@,
            description: "Get all enabled instructions/guidelines from Prompt Forge"@,
            input_schema: schema_with_argument(
                "category"@,
                "Optional category filter: general, code_style, communication, workflow, security, testing, documentation, custom"@,
                false,
            ),
        },
        ToolView {
            name: "get_skill"@,
            description: "Get a specific skill's full configuration and prompt template. Use the skill name (e.g., 'code-review', 'frontend-design') or ID."@,
            input_schema: schema_with_argument(
                "skill_id"@,
                "The ID or name of the skill to retrieve (e.g., 'code-review', 'explain-code', 'frontend-design')"@,
                true,
            ),
        },
        ToolView {
            name: "list_skills"@,
            description: "List all available skills"@,
            input_schema: schema_without_argument(),
        },
        ToolView {
            name: "apply_agent"@,
            description: "Apply an agent's configuration - returns the full system prompt with all attached skills and instructions combined"@,
            input_schema: schema_with_argument(
                "agent_id"@,
                "The ID of the agent to apply"@,
                true,
            ),
        },
    ]
}

fn no_argument() -> (r: Value)
    ensures
        tree_of(r) == schema_without_argument(),
{
    let mut o = object();
    insert_str(&mut o, "type", "object");
    insert(&mut o, "properties", object());
    o
}

fn one_argument(name: &str, description: &str, required: bool) -> (r: Value)
    ensures
        tree_of(r) == schema_with_argument(name@, description@, required),
{
    let mut property = object();
    insert_str(&mut property, "type", "string");
    insert_str(&mut property, "description", description);
    let mut properties = object();
    insert(&mut properties, name, property);
    let mut o = object();
    insert_str(&mut o, "type", "object");
    insert(&mut o, "properties", properties);
    if required {
        let names: Vec<String> = vec![name.to_string()];
        assert(crate::text::texts(names@) =~= seq![name@]);
        insert(&mut o, "required", strings(&names));
    }
    o
}

fn tool(name: &str, description: &str, input_schema: Value) -> (r: Tool)
    ensures
        r@ == (ToolView {
            name: name@,
            description: description@,
            input_schema: tree_of(input_schema),
        }),
{
    Tool {
        name: name.to_string(),
        description: description.to_string(),
        input_schema: input_schema,
    }
}

/// The descriptors of the six tools.
pub fn tool_catalogue() -> (r: Vec<Tool>)
    ensures
        tool_views(r@) == catalogue(),
{
    let mut r: Vec<Tool> = Vec::new();
    r.push(
        tool(
            "get_agent",
            "Get a Prompt Forge agent's full configuration including system prompt, personality, and attached skills/instructions",
            one_argument(
                "agent_id",
                "The ID of the agent to retrieve. Use 'default' for the default agent.",
                true,
            ),
        ),
    );
    r.push(tool("list_agents", "List all available Prompt Forge agents", no_argument()));
    r.push(
        tool(
            "get_instructions",
            "Get all enabled instructions/guidelines from Prompt Forge",
            one_argument(
                "category",
                "Optional category filter: general, code_style, communication, workflow, security, testing, documentation, custom",
                false,
            ),
        ),
    );
    r.push(
        tool(
            "get_skill",
            "Get a specific skill's full configuration and prompt template. Use the skill name (e.g., 'code-review', 'frontend-design') or ID.",
            one_argument(
                "skill_id",
                "The ID or name of the skill to retrieve (e.g., 'code-review', 'explain-code', 'frontend-design')",
                true,
            ),
        ),
    );
    r.push(tool("list_skills", "List all available skills", no_argument()));
    r.push(
        tool(
            "apply_agent",
            "Apply an agent's configuration - returns the full system prompt with all attached skills and instructions combined",
            one_argument("agent_id", "The ID of the agent to apply", true),
        ),
    );
    r
}

// ---------------------------------------------------------------------------
// What the tools return
// ---------------------------------------------------------------------------

/// The message for an agent that cannot be found.
pub open spec fn agent_not_found(key: Seq<char>) -> Seq<char> {
    "Agent not found: '"@ + key + "'. Use list_agents to see available agents."@
}

/// The message for a skill that cannot be found.
pub open spec fn skill_not_found(key: Seq<char>) -> Seq<char> {
    "Skill not found: '"@ + key + "'. Use list_skills to see available skills."@
}

/// `get_agent`: the full JSON document of the agent that `agent_id` names.
pub open spec fn get_agent_outcome(s: SnapshotView, args: JsonTree) -> Result<
    Seq<char>,
    Seq<char>,
> {
    match text_member(args, "agent_id"@) {
        None => Err("Missing agent_id"@),
        Some(key) => match resolve_agent(s.agents, key) {
            Some(i) => Ok(json_pretty(agent_tree(s.agents[i]))),
            None => Err(agent_not_found(key)),
        },
    }
}

/// `list_agents`: the list of agents as JSON.
pub open spec fn list_agents_outcome(s: SnapshotView) -> Result<Seq<char>, Seq<char>> {
    Ok(json_pretty(agent_summaries_tree(s.agents)))
}

/// `get_instructions`: the listing of the enabled instructions, narrowed by
/// `category` if that is given as a text.
pub open spec fn get_instructions_outcome(s: SnapshotView, args: JsonTree) -> Result<
    Seq<char>,
    Seq<char>,
> {
    Ok(instructions_listing(s.instructions, text_member(args, "category"@)))
}

/// `get_skill`: the full JSON document of the skill that `skill_id` names.
pub open spec fn get_skill_outcome(s: SnapshotView, args: JsonTree) -> Result<
    Seq<char>,
    Seq<char>,
> {
    match text_member(args, "skill_id"@) {
        None => Err("Missing skill_id"@),
        Some(key) => match resolve_skill(s.skills, key) {
            Some(i) => Ok(json_pretty(skill_tree(s.skills[i]))),
            None => Err(skill_not_found(key)),
        },
    }
}

/// `list_skills`: the list of skills as JSON, or a fixed sentence if there
/// is none.
pub open spec fn list_skills_outcome(s: SnapshotView) -> Result<Seq<char>, Seq<char>> {
    if s.skills.len() == 0 {
        Ok("No skills configured."@)
    } else {
        Ok(json_pretty(skill_summaries_tree(s.skills)))
    }
}

/// `apply_agent`: the prompt composed for the agent that `agent_id` names.
/// References of the agent to missing or disabled records never make it fail.
pub open spec fn apply_agent_outcome(s: SnapshotView, args: JsonTree) -> Result<
    Seq<char>,
    Seq<char>,
> {
    match text_member(args, "agent_id"@) {
        None => Err("Missing agent_id"@),
        Some(key) => match resolve_agent(s.agents, key) {
            Some(i) => Ok(composed_prompt(s.agents[i], s.skills, s.instructions)),
            None => Err(agent_not_found(key)),
        },
    }
}

/// What calling the tool `name` with `args` returns. A name that is none of
/// the six is a failure of the tool.
pub open spec fn tool_outcome(s: SnapshotView, name: Seq<char>, args: JsonTree) -> Result<
    Seq<char>,
    Seq<char>,
> {
    if name == "get_agent"@ {
        get_agent_outcome(s, args)
    } else if name == "list_agents"@ {
        list_agents_outcome(s)
    } else if name == "get_instructions"@ {
        get_instructions_outcome(s, args)
    } else if name == "get_skill"@ {
        get_skill_outcome(s, args)
    } else if name == "list_skills"@ {
        list_skills_outcome(s)
    } else if name == "apply_agent"@ {
        apply_agent_outcome(s, args)
    } else {
        Err("Unknown tool: "@ + name)
    }
}

/// Whether an exec outcome is the given outcome.
pub open spec fn is_outcome(r: Result<String, String>, outcome: Result<Seq<char>, Seq<char>>) -> bool {
    match r {
        Ok(t) => outcome == Ok::<Seq<char>, Seq<char>>(t@),
        Err(e) => outcome == Err::<Seq<char>, Seq<char>>(e@),
    }
}

fn not_found(what: &str, key: &str, hint: &str) -> (r: String)
    ensures
        r@ == what@ + key@ + hint@,
{
    let mut r = String::from_str(what);
    r.append(key);
    r.append(hint);
    r
}

impl McpServer {
    /// The full JSON document of an agent.
    pub fn tool_get_agent(&self, args: &Value) -> (r: Result<String, String>)
        ensures
            is_outcome(r, get_agent_outcome(self@, tree_of(*args))),
    {
        let snapshot = self.snapshot();
        match get_str(args, "agent_id") {
            None => Err("Missing agent_id".to_string()),
            Some(key) => match find_agent(&snapshot.agents, key) {
                Some(i) => Ok(to_pretty_text(&snapshot.agents[i].to_json())),
                None => Err(
                    not_found(
                        "Agent not found: '",
                        key,
                        "'. Use list_agents to see available agents.",
                    ),
                ),
            },
        }
    }

    /// The list of agents as JSON.
    pub fn tool_list_agents(&self) -> (r: Result<String, String>)
        ensures
            is_outcome(r, list_agents_outcome(self@)),
    {
        let snapshot = self.snapshot();
        Ok(to_pretty_text(&agent_summaries(&snapshot.agents)))
    }

    /// The enabled instructions, of one category or of all.
    pub fn tool_get_instructions(&self, args: &Value) -> (r: Result<String, String>)
        ensures
            is_outcome(r, get_instructions_outcome(self@, tree_of(*args))),
    {
        let snapshot = self.snapshot();
        let filter = get_str(args, "category");
        Ok(render_instructions_listing(&snapshot.instructions, filter))
    }

    /// The full JSON document of a skill.
    pub fn tool_get_skill(&self, args: &Value) -> (r: Result<String, String>)
        ensures
            is_outcome(r, get_skill_outcome(self@, tree_of(*args))),
    {
        let snapshot = self.snapshot();
        match get_str(args, "skill_id") {
            None => Err("Missing skill_id".to_string()),
            Some(key) => match find_skill(&snapshot.skills, key) {
                Some(i) => Ok(to_pretty_text(&snapshot.skills[i].to_json())),
                None => Err(
                    not_found(
                        "Skill not found: '",
                        key,
                        "'. Use list_skills to see available skills.",
                    ),
                ),
            },
        }
    }

    /// The list of skills as JSON.
    pub fn tool_list_skills(&self) -> (r: Result<String, String>)
        ensures
            is_outcome(r, list_skills_outcome(self@)),
    {
        let snapshot = self.snapshot();
        if snapshot.skills.len() == 0 {
            return Ok("No skills configured.".to_string());
        }
        Ok(to_pretty_text(&skill_summaries(&snapshot.skills)))
    }

    /// The prompt composed for an agent.
    pub fn tool_apply_agent(&self, args: &Value) -> (r: Result<String, String>)
        ensures
            is_outcome(r, apply_agent_outcome(self@, tree_of(*args))),
    {
        let snapshot = self.snapshot();
        match get_str(args, "agent_id") {
            None => Err("Missing agent_id".to_string()),
            Some(key) => match find_agent(&snapshot.agents, key) {
                Some(i) => Ok(
                    compose_prompt(&snapshot.agents[i], &snapshot.skills, &snapshot.instructions),
                ),
                None => Err(
                    not_found(
                        "Agent not found: '",
                        key,
                        "'. Use list_agents to see available agents.",
                    ),
                ),
            },
        }
    }

    /// Calls the tool `name` with `args`.
    pub fn call_tool(&self, name: &str, args: &Value) -> (r: Result<String, String>)
        ensures
            is_outcome(r, tool_outcome(self@, name@, tree_of(*args))),
    {
        if str_eq(name, "get_agent") {
            self.tool_get_agent(args)
        } else if str_eq(name, "list_agents") {
            self.tool_list_agents()
        } else if str_eq(name, "get_instructions") {
            self.tool_get_instructions(args)
        } else if str_eq(name, "get_skill") {
            self.tool_get_skill(args)
        } else if str_eq(name, "list_skills") {
            self.tool_list_skills()
        } else if str_eq(name, "apply_agent") {
            self.tool_apply_agent(args)
        } else {
            let mut message = String::from_str("Unknown tool: ");
            message.append(name);
            Err(message)
        }
    }
}

// ---------------------------------------------------------------------------
// What holds of every call of `apply_agent`
// ---------------------------------------------------------------------------

/// Applying an agent is repeatable: two calls with the same arguments on an
/// unchanged snapshot end alike and return the same text, character by
/// character.
pub proof fn lemma_apply_agent_is_repeatable(
    first: Result<String, String>,
    second: Result<String, String>,
    s: SnapshotView,
    args: JsonTree,
)
    requires
        is_outcome(first, apply_agent_outcome(s, args)),
        is_outcome(second, apply_agent_outcome(s, args)),
    ensures
        first is Ok <==> second is Ok,
        first is Ok ==> first->Ok_0@ == second->Ok_0@,
        first is Err ==> first->Err_0@ == second->Err_0@,
{
}

/// Applying an agent that is there succeeds, whatever its references point
/// to: a reference to a record that is missing or disabled is no error.
pub proof fn lemma_apply_agent_succeeds_for_known_agent(
    s: SnapshotView,
    args: JsonTree,
    key: Seq<char>,
)
    requires
        text_member(args, "agent_id"@) == Some(key),
        resolve_agent(s.agents, key) is Some,
    ensures
        apply_agent_outcome(s, args) == Ok::<Seq<char>, Seq<char>>(
            composed_prompt(s.agents[resolve_agent(s.agents, key)->0], s.skills, s.instructions),
        ),
{
}

} // verus!
