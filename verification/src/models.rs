//! The records the server holds: agents, skills and instructions, with the
//! mathematical view of each that the contracts of this crate speak of.
//!
//! Times are kept as RFC 3339 text. The two personality ratios are kept as
//! the JSON numbers they are stored and served as.

use serde_json::Value;
use vstd::prelude::*;

use crate::json::tree_of;
use crate::json::JsonTree;
use crate::text::str_eq;
use crate::text::texts;

verus! {

/// What kind of capability a skill is.
#[derive(Clone, Copy, Debug, PartialEq, Eq, Structural)]
pub enum SkillType {
    Prompt,
    Tool,
    Workflow,
}

/// The subject an instruction belongs to.
#[derive(Clone, Copy, Debug, PartialEq, Eq, Structural)]
pub enum InstructionCategory {
    General,
    CodeStyle,
    Communication,
    Workflow,
    Security,
    Testing,
    Documentation,
    Custom,
}

/// The lower-case token a skill type is stored and served under.
pub open spec fn skill_type_text(t: SkillType) -> Seq<char> {
    match t {
        SkillType::Prompt => "prompt"@,
        SkillType::Tool => "tool"@,
        SkillType::Workflow => "workflow"@,
    }
}

/// The skill type a token stands for; any unknown token is a prompt.
pub open spec fn skill_type_of(s: Seq<char>) -> SkillType {
    if s == "tool"@ {
        SkillType::Tool
    } else if s == "workflow"@ {
        SkillType::Workflow
    } else {
        SkillType::Prompt
    }
}

/// The lower-case token a category is stored and served under.
pub open spec fn category_text(c: InstructionCategory) -> Seq<char> {
    match c {
        InstructionCategory::General => "general"@,
        InstructionCategory::CodeStyle => "code_style"@,
        InstructionCategory::Communication => "communication"@,
        InstructionCategory::Workflow => "workflow"@,
        InstructionCategory::Security => "security"@,
        InstructionCategory::Testing => "testing"@,
        InstructionCategory::Documentation => "documentation"@,
        InstructionCategory::Custom => "custom"@,
    }
}

/// The category a token stands for; any unknown token is `General`.
pub open spec fn category_of(s: Seq<char>) -> InstructionCategory {
    if s == "code_style"@ {
        InstructionCategory::CodeStyle
    } else if s == "communication"@ {
        InstructionCategory::Communication
    } else if s == "workflow"@ {
        InstructionCategory::Workflow
    } else if s == "security"@ {
        InstructionCategory::Security
    } else if s == "testing"@ {
        InstructionCategory::Testing
    } else if s == "documentation"@ {
        InstructionCategory::Documentation
    } else if s == "custom"@ {
        InstructionCategory::Custom
    } else {
        InstructionCategory::General
    }
}

/// The token of a skill type.
pub fn skill_type_to_string(st: &SkillType) -> (r: &'static str)
    ensures
        r@ == skill_type_text(*st),
{
    match st {
        SkillType::Prompt => "prompt",
        SkillType::Tool => "tool",
        SkillType::Workflow => "workflow",
    }
}

/// The skill type of a token; a prompt for any unknown token.
pub fn string_to_skill_type(s: &str) -> (r: SkillType)
    ensures
        r == skill_type_of(s@),
{
    if str_eq(s, "tool") {
        SkillType::Tool
    } else if str_eq(s, "workflow") {
        SkillType::Workflow
    } else {
        SkillType::Prompt
    }
}

/// The token of a category.
pub fn category_to_string(cat: &InstructionCategory) -> (r: &'static str)
    ensures
        r@ == category_text(*cat),
{
    match cat {
        InstructionCategory::General => "general",
        InstructionCategory::CodeStyle => "code_style",
        InstructionCategory::Communication => "communication",
        InstructionCategory::Workflow => "workflow",
        InstructionCategory::Security => "security",
        InstructionCategory::Testing => "testing",
        InstructionCategory::Documentation => "documentation",
        InstructionCategory::Custom => "custom",
    }
}

/// The category of a token; `General` for any unknown token.
pub fn string_to_category(s: &str) -> (r: InstructionCategory)
    ensures
        r == category_of(s@),
{
    if str_eq(s, "code_style") {
        InstructionCategory::CodeStyle
    } else if str_eq(s, "communication") {
        InstructionCategory::Communication
    } else if str_eq(s, "workflow") {
        InstructionCategory::Workflow
    } else if str_eq(s, "security") {
        InstructionCategory::Security
    } else if str_eq(s, "testing") {
        InstructionCategory::Testing
    } else if str_eq(s, "documentation") {
        InstructionCategory::Documentation
    } else if str_eq(s, "custom") {
        InstructionCategory::Custom
    } else {
        InstructionCategory::General
    }
}

/// No two skill types share a token: reading back the token of a skill type
/// gives that skill type.
pub proof fn lemma_skill_type_round_trip(t: SkillType)
    ensures
        skill_type_of(skill_type_text(t)) == t,
{
    reveal_strlit("prompt");
    reveal_strlit("tool");
    reveal_strlit("workflow");
    assert("tool"@.len() == 4);
    assert("workflow"@.len() == 8);
}

/// No two categories share a token: reading back the token of a category
/// gives that category.
pub proof fn lemma_category_round_trip(c: InstructionCategory)
    ensures
        category_of(category_text(c)) == c,
{
    reveal_strlit("general");
    reveal_strlit("code_style");
    reveal_strlit("communication");
    reveal_strlit("workflow");
    reveal_strlit("security");
    reveal_strlit("testing");
    reveal_strlit("documentation");
    reveal_strlit("custom");
    assert("code_style"@[0] == 'c' && "code_style"@[1] == 'o' && "code_style"@[2] == 'd');
    assert("communication"@[0] == 'c' && "communication"@[1] == 'o' && "communication"@[2] == 'm');
    assert("workflow"@[0] == 'w');
    assert("security"@[0] == 's');
    assert("testing"@[0] == 't');
    assert("documentation"@[0] == 'd');
    assert("custom"@[0] == 'c' && "custom"@[1] == 'u');
}

/// How an agent communicates.
#[derive(Clone, Debug)]
pub struct Personality {
    pub tone: String,
    pub verbosity: String,
    /// A JSON number between 0 and 1.
    pub creativity: Value,
    /// A JSON number between 0 (casual) and 1 (formal).
    pub formality: Value,
    pub traits: Vec<String>,
}

/// The view of a personality.
pub struct PersonalityView {
    pub tone: Seq<char>,
    pub verbosity: Seq<char>,
    pub creativity: JsonTree,
    pub formality: JsonTree,
    pub traits: Seq<Seq<char>>,
}

impl View for Personality {
    type V = PersonalityView;

    open spec fn view(&self) -> PersonalityView {
        PersonalityView {
            tone: self.tone@,
            verbosity: self.verbosity@,
            creativity: tree_of(self.creativity),
            formality: tree_of(self.formality),
            traits: texts(self.traits@),
        }
    }
}

/// A customisable persona with attached skills and instructions.
#[derive(Clone, Debug)]
pub struct Agent {
    pub id: String,
    pub name: String,
    pub description: String,
    pub avatar_emoji: String,
    pub personality: Personality,
    pub system_prompt: String,
    /// Ids of the attached skills, in order.
    pub skills: Vec<String>,
    /// Ids of the attached instructions, in order.
    pub instructions: Vec<String>,
    pub tags: Vec<String>,
    pub created_at: String,
    pub updated_at: String,
    pub usage_count: i32,
    pub last_used_at: Option<String>,
}

/// The view of an agent.
pub struct AgentView {
    pub id: Seq<char>,
    pub name: Seq<char>,
    pub description: Seq<char>,
    pub avatar_emoji: Seq<char>,
    pub personality: PersonalityView,
    pub system_prompt: Seq<char>,
    pub skills: Seq<Seq<char>>,
    pub instructions: Seq<Seq<char>>,
    pub tags: Seq<Seq<char>>,
    pub created_at: Seq<char>,
    pub updated_at: Seq<char>,
    pub usage_count: int,
    pub last_used_at: Option<Seq<char>>,
}

impl View for Agent {
    type V = AgentView;

    open spec fn view(&self) -> AgentView {
        AgentView {
            id: self.id@,
            name: self.name@,
            description: self.description@,
            avatar_emoji: self.avatar_emoji@,
            personality: self.personality@,
            system_prompt: self.system_prompt@,
            skills: texts(self.skills@),
            instructions: texts(self.instructions@),
            tags: texts(self.tags@),
            created_at: self.created_at@,
            updated_at: self.updated_at@,
            usage_count: self.usage_count as int,
            last_used_at: match self.last_used_at {
                Some(t) => Some(t@),
                None => None,
            },
        }
    }
}

/// What it takes to create an agent: an agent without id and times.
#[derive(Clone, Debug)]
pub struct CreateAgentInput {
    pub name: String,
    pub description: String,
    pub avatar_emoji: String,
    pub personality: Personality,
    pub system_prompt: String,
    pub skills: Vec<String>,
    pub instructions: Vec<String>,
    pub tags: Vec<String>,
}

/// One parameter of a tool skill.
#[derive(Clone, Debug)]
pub struct ToolParameter {
    pub name: String,
    pub description: String,
    pub param_type: String,
    pub required: bool,
    pub default: Option<Value>,
}

/// The view of a tool parameter.
pub struct ToolParameterView {
    pub name: Seq<char>,
    pub description: Seq<char>,
    pub param_type: Seq<char>,
    pub required: bool,
    pub default: Option<JsonTree>,
}

impl View for ToolParameter {
    type V = ToolParameterView;

    open spec fn view(&self) -> ToolParameterView {
        ToolParameterView {
            name: self.name@,
            description: self.description@,
            param_type: self.param_type@,
            required: self.required,
            default: match self.default {
                Some(v) => Some(tree_of(v)),
                None => None,
            },
        }
    }
}

/// One step of a workflow skill.
#[derive(Clone, Debug)]
pub struct WorkflowStep {
    pub id: String,
    pub name: String,
    pub action: String,
    pub inputs: Value,
    pub outputs: Vec<String>,
}

/// The view of a workflow step.
pub struct WorkflowStepView {
    pub id: Seq<char>,
    pub name: Seq<char>,
    pub action: Seq<char>,
    pub inputs: JsonTree,
    pub outputs: Seq<Seq<char>>,
}

impl View for WorkflowStep {
    type V = WorkflowStepView;

    open spec fn view(&self) -> WorkflowStepView {
        WorkflowStepView {
            id: self.id@,
            name: self.name@,
            action: self.action@,
            inputs: tree_of(self.inputs),
            outputs: texts(self.outputs@),
        }
    }
}

/// The views of a list of tool parameters.
pub open spec fn parameter_views(v: Seq<ToolParameter>) -> Seq<ToolParameterView> {
    v.map_values(|p: ToolParameter| p@)
}

/// The views of a list of workflow steps.
pub open spec fn step_views(v: Seq<WorkflowStep>) -> Seq<WorkflowStepView> {
    v.map_values(|s: WorkflowStep| s@)
}

/// What a skill consists of, by its kind.
#[derive(Clone, Debug)]
pub enum SkillDefinition {
    Prompt { template: String },
    Tool { parameters: Vec<ToolParameter>, handler: String },
    Workflow { steps: Vec<WorkflowStep> },
}

/// The view of a skill definition.
pub enum SkillDefinitionView {
    Prompt { template: Seq<char> },
    Tool { parameters: Seq<ToolParameterView>, handler: Seq<char> },
    Workflow { steps: Seq<WorkflowStepView> },
}

impl View for SkillDefinition {
    type V = SkillDefinitionView;

    open spec fn view(&self) -> SkillDefinitionView {
        match self {
            SkillDefinition::Prompt { template } => SkillDefinitionView::Prompt {
                template: template@,
            },
            SkillDefinition::Tool { parameters, handler } => SkillDefinitionView::Tool {
                parameters: parameter_views(parameters@),
                handler: handler@,
            },
            SkillDefinition::Workflow { steps } => SkillDefinitionView::Workflow {
                steps: step_views(steps@),
            },
        }
    }
}

/// A capability an agent can have attached.
#[derive(Clone, Debug)]
pub struct Skill {
    pub id: String,
    pub name: String,
    pub description: String,
    pub icon_emoji: String,
    pub skill_type: SkillType,
    pub definition: SkillDefinition,
    pub enabled: bool,
    pub created_at: String,
    pub updated_at: String,
}

/// The view of a skill.
pub struct SkillView {
    pub id: Seq<char>,
    pub name: Seq<char>,
    pub description: Seq<char>,
    pub icon_emoji: Seq<char>,
    pub skill_type: SkillType,
    pub definition: SkillDefinitionView,
    pub enabled: bool,
    pub created_at: Seq<char>,
    pub updated_at: Seq<char>,
}

impl View for Skill {
    type V = SkillView;

    open spec fn view(&self) -> SkillView {
        SkillView {
            id: self.id@,
            name: self.name@,
            description: self.description@,
            icon_emoji: self.icon_emoji@,
            skill_type: self.skill_type,
            definition: self.definition@,
            enabled: self.enabled,
            created_at: self.created_at@,
            updated_at: self.updated_at@,
        }
    }
}

/// What it takes to create a skill: a skill without id and times.
#[derive(Clone, Debug)]
pub struct CreateSkillInput {
    pub name: String,
    pub description: String,
    pub icon_emoji: String,
    pub skill_type: SkillType,
    pub definition: SkillDefinition,
    pub enabled: bool,
}

/// A block of guidance text with a category and a priority.
#[derive(Clone, Debug)]
pub struct Instruction {
    pub id: String,
    pub name: String,
    pub description: String,
    pub icon_emoji: String,
    pub category: InstructionCategory,
    pub content: String,
    /// Higher is more important.
    pub priority: u8,
    pub tags: Vec<String>,
    pub enabled: bool,
    pub created_at: String,
    pub updated_at: String,
}

/// The view of an instruction.
pub struct InstructionView {
    pub id: Seq<char>,
    pub name: Seq<char>,
    pub description: Seq<char>,
    pub icon_emoji: Seq<char>,
    pub category: InstructionCategory,
    pub content: Seq<char>,
    pub priority: u8,
    pub tags: Seq<Seq<char>>,
    pub enabled: bool,
    pub created_at: Seq<char>,
    pub updated_at: Seq<char>,
}

impl View for Instruction {
    type V = InstructionView;

    open spec fn view(&self) -> InstructionView {
        InstructionView {
            id: self.id@,
            name: self.name@,
            description: self.description@,
            icon_emoji: self.icon_emoji@,
            category: self.category,
            content: self.content@,
            priority: self.priority,
            tags: texts(self.tags@),
            enabled: self.enabled,
            created_at: self.created_at@,
            updated_at: self.updated_at@,
        }
    }
}

/// What it takes to create an instruction: an instruction without id and
/// times.
#[derive(Clone, Debug)]
pub struct CreateInstructionInput {
    pub name: String,
    pub description: String,
    pub icon_emoji: String,
    pub category: InstructionCategory,
    pub content: String,
    pub priority: u8,
    pub tags: Vec<String>,
    pub enabled: bool,
}

/// How the application looks.
#[derive(Clone, Debug)]
pub struct Theme {
    /// `dark`, `light` or `auto`.
    pub mode: String,
    pub accent_color: String,
    pub emotional_ui: bool,
}

/// The view of a theme.
pub struct ThemeView {
    pub mode: Seq<char>,
    pub accent_color: Seq<char>,
    pub emotional_ui: bool,
}

impl View for Theme {
    type V = ThemeView;

    open spec fn view(&self) -> ThemeView {
        ThemeView {
            mode: self.mode@,
            accent_color: self.accent_color@,
            emotional_ui: self.emotional_ui,
        }
    }
}

/// The settings of the application.
#[derive(Clone, Debug)]
pub struct Settings {
    pub theme: Theme,
    pub mcp_server_port: u16,
    pub mcp_server_enabled: bool,
    pub data_directory: Option<String>,
    pub auto_start_mcp: bool,
}

/// The view of the settings.
pub struct SettingsView {
    pub theme: ThemeView,
    pub mcp_server_port: u16,
    pub mcp_server_enabled: bool,
    pub data_directory: Option<Seq<char>>,
    pub auto_start_mcp: bool,
}

impl View for Settings {
    type V = SettingsView;

    open spec fn view(&self) -> SettingsView {
        SettingsView {
            theme: self.theme@,
            mcp_server_port: self.mcp_server_port,
            mcp_server_enabled: self.mcp_server_enabled,
            data_directory: match self.data_directory {
                Some(d) => Some(d@),
                None => None,
            },
            auto_start_mcp: self.auto_start_mcp,
        }
    }
}

/// Whether the server runs, and what it offers.
#[derive(Clone, Debug)]
pub struct McpStatus {
    pub running: bool,
    pub port: u16,
    pub connected_clients: u32,
    pub available_tools: Vec<String>,
}

/// The view of a status report.
pub struct McpStatusView {
    pub running: bool,
    pub port: u16,
    pub connected_clients: u32,
    pub available_tools: Seq<Seq<char>>,
}

impl View for McpStatus {
    type V = McpStatusView;

    open spec fn view(&self) -> McpStatusView {
        McpStatusView {
            running: self.running,
            port: self.port,
            connected_clients: self.connected_clients,
            available_tools: texts(self.available_tools@),
        }
    }
}

/// The views of a list of agents.
pub open spec fn agent_views(v: Seq<Agent>) -> Seq<AgentView> {
    v.map_values(|a: Agent| a@)
}

/// The views of a list of skills.
pub open spec fn skill_views(v: Seq<Skill>) -> Seq<SkillView> {
    v.map_values(|s: Skill| s@)
}

/// The views of a list of instructions.
pub open spec fn instruction_views(v: Seq<Instruction>) -> Seq<InstructionView> {
    v.map_values(|i: Instruction| i@)
}

} // verus!
