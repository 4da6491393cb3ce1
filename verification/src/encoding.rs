//! The JSON documents of agents and skills, as the tools and resources serve
//! them.

use serde_json::Value;
use vstd::prelude::*;

use crate::json::array;
use crate::json::insert;
use crate::json::insert_bool;
use crate::json::insert_str;
use crate::json::integer;
use crate::json::integer_tree;
use crate::json::null;
use crate::json::object;
use crate::json::strings;
use crate::json::text_array;
use crate::json::tree_of;
use crate::json::trees;
use crate::json::JsonTree;
use crate::models::agent_views;
use crate::models::parameter_views;
use crate::models::skill_type_text;
use crate::models::skill_type_to_string;
use crate::models::skill_views;
use crate::models::step_views;
use crate::models::Agent;
use crate::models::AgentView;
use crate::models::Personality;
use crate::models::PersonalityView;
use crate::models::Skill;
use crate::models::SkillDefinition;
use crate::models::SkillDefinitionView;
use crate::models::SkillView;
use crate::models::ToolParameter;
use crate::models::ToolParameterView;
use crate::models::WorkflowStep;
use crate::models::WorkflowStepView;

verus! {

/// The tree of an optional text: the text, or `null`.
pub open spec fn optional_text_tree(t: Option<Seq<char>>) -> JsonTree {
    match t {
        Some(s) => JsonTree::Str(s),
        None => JsonTree::Null,
    }
}

/// The tree of an optional tree: the tree, or `null`.
pub open spec fn optional_tree(t: Option<JsonTree>) -> JsonTree {
    match t {
        Some(x) => x,
        None => JsonTree::Null,
    }
}

/// The JSON of a personality.
pub open spec fn personality_tree(p: PersonalityView) -> JsonTree {
    JsonTree::Object(
        map![
            "tone"@ => JsonTree::Str(p.tone),
            "verbosity"@ => JsonTree::Str(p.verbosity),
            "creativity"@ => p.creativity,
            "formality"@ => p.formality,
            "traits"@ => text_array(p.traits),
        ],
    )
}

/// The full JSON document of an agent.
pub open spec fn agent_tree(a: AgentView) -> JsonTree {
    JsonTree::Object(
        map![
            "id"@ => JsonTree::Str(a.id),
            "name"@ => JsonTree::Str(a.name),
            "description"@ => JsonTree::Str(a.description),
            "avatar_emoji"@ => JsonTree::Str(a.avatar_emoji),
            "personality"@ => personality_tree(a.personality),
            "system_prompt"@ => JsonTree::Str(a.system_prompt),
            "skills"@ => text_array(a.skills),
            "instructions"@ => text_array(a.instructions),
            "tags"@ => text_array(a.tags),
            "created_at"@ => JsonTree::Str(a.created_at),
            "updated_at"@ => JsonTree::Str(a.updated_at),
            "usage_count"@ => integer_tree(a.usage_count),
            "last_used_at"@ => optional_text_tree(a.last_used_at),
        ],
    )
}

/// The entry of an agent in the list of agents.
pub open spec fn agent_summary_tree(a: AgentView) -> JsonTree {
    JsonTree::Object(
        map![
            "id"@ => JsonTree::Str(a.id),
            "name"@ => JsonTree::Str(a.name),
            "description"@ => JsonTree::Str(a.description),
            "emoji"@ => JsonTree::Str(a.avatar_emoji),
        ],
    )
}

/// The list of agents: one entry each, in snapshot order.
pub open spec fn agent_summaries_tree(agents: Seq<AgentView>) -> JsonTree {
    JsonTree::Array(agents.map_values(|a: AgentView| agent_summary_tree(a)))
}

/// The JSON of one parameter of a tool skill; a missing default is `null`.
pub open spec fn parameter_tree(p: ToolParameterView) -> JsonTree {
    JsonTree::Object(
        map![
            "name"@ => JsonTree::Str(p.name),
            "description"@ => JsonTree::Str(p.description),
            "param_type"@ => JsonTree::Str(p.param_type),
            "required"@ => JsonTree::Bool(p.required),
            "default"@ => optional_tree(p.default),
        ],
    )
}

/// The JSON of one step of a workflow skill.
pub open spec fn step_tree(s: WorkflowStepView) -> JsonTree {
    JsonTree::Object(
        map![
            "id"@ => JsonTree::Str(s.id),
            "name"@ => JsonTree::Str(s.name),
            "action"@ => JsonTree::Str(s.action),
            "inputs"@ => s.inputs,
            "outputs"@ => text_array(s.outputs),
        ],
    )
}

/// The JSON of a skill definition: the kind under `type`, beside the fields
/// of that kind.
pub open spec fn definition_tree(d: SkillDefinitionView) -> JsonTree {
    match d {
        SkillDefinitionView::Prompt { template } => JsonTree::Object(
            map!["type"@ => JsonTree::Str("prompt"@), "template"@ => JsonTree::Str(template)],
        ),
        SkillDefinitionView::Tool { parameters, handler } => JsonTree::Object(
            map![
                "type"@ => JsonTree::Str("tool"@),
                "parameters"@ => JsonTree::Array(
                    parameters.map_values(|p: ToolParameterView| parameter_tree(p)),
                ),
                "handler"@ => JsonTree::Str(handler),
            ],
        ),
        SkillDefinitionView::Workflow { steps } => JsonTree::Object(
            map![
                "type"@ => JsonTree::Str("workflow"@),
                "steps"@ => JsonTree::Array(steps.map_values(|s: WorkflowStepView| step_tree(s))),
            ],
        ),
    }
}

/// The full JSON document of a skill.
pub open spec fn skill_tree(s: SkillView) -> JsonTree {
    JsonTree::Object(
        map![
            "id"@ => JsonTree::Str(s.id),
            "name"@ => JsonTree::Str(s.name),
            "description"@ => JsonTree::Str(s.description),
            "icon_emoji"@ => JsonTree::Str(s.icon_emoji),
            "skill_type"@ => JsonTree::Str(skill_type_text(s.skill_type)),
            "definition"@ => definition_tree(s.definition),
            "enabled"@ => JsonTree::Bool(s.enabled),
            "created_at"@ => JsonTree::Str(s.created_at),
            "updated_at"@ => JsonTree::Str(s.updated_at),
        ],
    )
}

/// The entry of a skill in the list of skills.
pub open spec fn skill_summary_tree(s: SkillView) -> JsonTree {
    JsonTree::Object(
        map![
            "id"@ => JsonTree::Str(s.id),
            "name"@ => JsonTree::Str(s.name),
            "description"@ => JsonTree::Str(s.description),
            "emoji"@ => JsonTree::Str(s.icon_emoji),
            "enabled"@ => JsonTree::Bool(s.enabled),
        ],
    )
}

/// The list of skills: one entry each, in snapshot order.
pub open spec fn skill_summaries_tree(skills: Seq<SkillView>) -> JsonTree {
    JsonTree::Array(skills.map_values(|s: SkillView| skill_summary_tree(s)))
}

impl Personality {
    /// Encodes the value as JSON.
    pub fn to_json(&self) -> (r: Value)
        ensures
            tree_of(r) == personality_tree(self@),
    {
        let mut o = object();
        insert_str(&mut o, "tone", self.tone.as_str());
        insert_str(&mut o, "verbosity", self.verbosity.as_str());
        insert(&mut o, "creativity", self.creativity.clone());
        insert(&mut o, "formality", self.formality.clone());
        insert(&mut o, "traits", strings(&self.traits));
        o
    }
}

impl Agent {
    /// The full JSON document of the agent.
    pub fn to_json(&self) -> (r: Value)
        ensures
            tree_of(r) == agent_tree(self@),
    {
        let mut o = object();
        insert_str(&mut o, "id", self.id.as_str());
        insert_str(&mut o, "name", self.name.as_str());
        insert_str(&mut o, "description", self.description.as_str());
        insert_str(&mut o, "avatar_emoji", self.avatar_emoji.as_str());
        insert(&mut o, "personality", self.personality.to_json());
        insert_str(&mut o, "system_prompt", self.system_prompt.as_str());
        insert(&mut o, "skills", strings(&self.skills));
        insert(&mut o, "instructions", strings(&self.instructions));
        insert(&mut o, "tags", strings(&self.tags));
        insert_str(&mut o, "created_at", self.created_at.as_str());
        insert_str(&mut o, "updated_at", self.updated_at.as_str());
        insert(&mut o, "usage_count", integer(self.usage_count as i64));
        match &self.last_used_at {
            Some(t) => {
                insert_str(&mut o, "last_used_at", t.as_str());
            },
            None => {
                insert(&mut o, "last_used_at", null());
            },
        }
        o
    }

    /// The entry of the agent in the list of agents.
    pub fn summary(&self) -> (r: Value)
        ensures
            tree_of(r) == agent_summary_tree(self@),
    {
        let mut o = object();
        insert_str(&mut o, "id", self.id.as_str());
        insert_str(&mut o, "name", self.name.as_str());
        insert_str(&mut o, "description", self.description.as_str());
        insert_str(&mut o, "emoji", self.avatar_emoji.as_str());
        o
    }
}

/// The list of agents as a JSON array.
pub fn agent_summaries(agents: &Vec<Agent>) -> (r: Value)
    ensures
        tree_of(r) == agent_summaries_tree(agent_views(agents@)),
{
    let mut out: Vec<Value> = Vec::new();
    let mut i: usize = 0;
    while i < agents.len()
        invariant
            i <= agents.len(),
            out@.len() == i,
            forall|k: int|
                0 <= k < i ==> tree_of(#[trigger] out@[k]) == agent_summary_tree(agents@[k]@),
        decreases agents.len() - i,
    {
        out.push(agents[i].summary());
        i += 1;
    }
    let r = array(out);
    assert(trees(out@) =~= agent_views(agents@).map_values(|a: AgentView| agent_summary_tree(a)));
    r
}

impl ToolParameter {
    /// Encodes the value as JSON.
    pub fn to_json(&self) -> (r: Value)
        ensures
            tree_of(r) == parameter_tree(self@),
    {
        let mut o = object();
        insert_str(&mut o, "name", self.name.as_str());
        insert_str(&mut o, "description", self.description.as_str());
        insert_str(&mut o, "param_type", self.param_type.as_str());
        insert_bool(&mut o, "required", self.required);
        match &self.default {
            Some(v) => {
                insert(&mut o, "default", v.clone());
            },
            None => {
                insert(&mut o, "default", null());
            },
        }
        o
    }
}

impl WorkflowStep {
    /// Encodes the value as JSON.
    pub fn to_json(&self) -> (r: Value)
        ensures
            tree_of(r) == step_tree(self@),
    {
        let mut o = object();
        insert_str(&mut o, "id", self.id.as_str());
        insert_str(&mut o, "name", self.name.as_str());
        insert_str(&mut o, "action", self.action.as_str());
        insert(&mut o, "inputs", self.inputs.clone());
        insert(&mut o, "outputs", strings(&self.outputs));
        o
    }
}

fn parameters_to_json(parameters: &Vec<ToolParameter>) -> (r: Value)
    ensures
        tree_of(r) == JsonTree::Array(
            parameter_views(parameters@).map_values(|p: ToolParameterView| parameter_tree(p)),
        ),
{
    let mut out: Vec<Value> = Vec::new();
    let mut i: usize = 0;
    while i < parameters.len()
        invariant
            i <= parameters.len(),
            out@.len() == i,
            forall|k: int|
                0 <= k < i ==> tree_of(#[trigger] out@[k]) == parameter_tree(parameters@[k]@),
        decreases parameters.len() - i,
    {
        out.push(parameters[i].to_json());
        i += 1;
    }
    let r = array(out);
    assert(trees(out@) =~= parameter_views(parameters@).map_values(
        |p: ToolParameterView| parameter_tree(p),
    ));
    r
}

fn steps_to_json(steps: &Vec<WorkflowStep>) -> (r: Value)
    ensures
        tree_of(r) == JsonTree::Array(
            step_views(steps@).map_values(|s: WorkflowStepView| step_tree(s)),
        ),
{
    let mut out: Vec<Value> = Vec::new();
    let mut i: usize = 0;
    while i < steps.len()
        invariant
            i <= steps.len(),
            out@.len() == i,
            forall|k: int| 0 <= k < i ==> tree_of(#[trigger] out@[k]) == step_tree(steps@[k]@),
        decreases steps.len() - i,
    {
        out.push(steps[i].to_json());
        i += 1;
    }
    let r = array(out);
    assert(trees(out@) =~= step_views(steps@).map_values(|s: WorkflowStepView| step_tree(s)));
    r
}

impl SkillDefinition {
    /// Encodes the value as JSON.
    pub fn to_json(&self) -> (r: Value)
        ensures
            tree_of(r) == definition_tree(self@),
    {
        let mut o = object();
        match self {
            SkillDefinition::Prompt { template } => {
                insert_str(&mut o, "type", "prompt");
                insert_str(&mut o, "template", template.as_str());
            },
            SkillDefinition::Tool { parameters, handler } => {
                insert_str(&mut o, "type", "tool");
                insert(&mut o, "parameters", parameters_to_json(parameters));
                insert_str(&mut o, "handler", handler.as_str());
            },
            SkillDefinition::Workflow { steps } => {
                insert_str(&mut o, "type", "workflow");
                insert(&mut o, "steps", steps_to_json(steps));
            },
        }
        o
    }
}

impl Skill {
    /// The full JSON document of the skill.
    pub fn to_json(&self) -> (r: Value)
        ensures
            tree_of(r) == skill_tree(self@),
    {
        let mut o = object();
        insert_str(&mut o, "id", self.id.as_str());
        insert_str(&mut o, "name", self.name.as_str());
        insert_str(&mut o, "description", self.description.as_str());
        insert_str(&mut o, "icon_emoji", self.icon_emoji.as_str());
        insert_str(&mut o, "skill_type", skill_type_to_string(&self.skill_type));
        insert(&mut o, "definition", self.definition.to_json());
        insert_bool(&mut o, "enabled", self.enabled);
        insert_str(&mut o, "created_at", self.created_at.as_str());
        insert_str(&mut o, "updated_at", self.updated_at.as_str());
        o
    }

    /// The entry of the skill in the list of skills.
    pub fn summary(&self) -> (r: Value)
        ensures
            tree_of(r) == skill_summary_tree(self@),
    {
        let mut o = object();
        insert_str(&mut o, "id", self.id.as_str());
        insert_str(&mut o, "name", self.name.as_str());
        insert_str(&mut o, "description", self.description.as_str());
        insert_str(&mut o, "emoji", self.icon_emoji.as_str());
        insert_bool(&mut o, "enabled", self.enabled);
        o
    }
}

/// The list of skills as a JSON array.
pub fn skill_summaries(skills: &Vec<Skill>) -> (r: Value)
    ensures
        tree_of(r) == skill_summaries_tree(skill_views(skills@)),
{
    let mut out: Vec<Value> = Vec::new();
    let mut i: usize = 0;
    while i < skills.len()
        invariant
            i <= skills.len(),
            out@.len() == i,
            forall|k: int|
                0 <= k < i ==> tree_of(#[trigger] out@[k]) == skill_summary_tree(skills@[k]@),
        decreases skills.len() - i,
    {
        out.push(skills[i].summary());
        i += 1;
    }
    let r = array(out);
    assert(trees(out@) =~= skill_views(skills@).map_values(|s: SkillView| skill_summary_tree(s)));
    r
}

} // verus!
