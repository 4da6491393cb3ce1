//! The records and settings that are there before a user makes any: the
//! values of `default()`, and the agent, the skills and the instructions a
//! new store is seeded with.
//!
//! A new record gets a fresh id and the current time. What these are cannot
//! be foreseen, so each kind of record also has a constructor that takes
//! them as arguments and is exact about everything.

use vstd::prelude::*;

use crate::fresh::fresh_id;
use crate::fresh::now_text;
use crate::json::parsed_or_null;
use crate::json::value_from_text;
use crate::models::Agent;
use crate::models::AgentView;
use crate::models::Instruction;
use crate::models::InstructionCategory;
use crate::models::InstructionView;
use crate::models::Personality;
use crate::models::PersonalityView;
use crate::models::Settings;
use crate::models::SettingsView;
use crate::models::Skill;
use crate::models::SkillDefinition;
use crate::models::SkillDefinitionView;
use crate::models::SkillType;
use crate::models::SkillView;
use crate::models::Theme;
use crate::models::ThemeView;
use crate::text::texts;

verus! {

/// The personality of a new agent.
pub open spec fn default_personality() -> PersonalityView {
    PersonalityView {
        tone: "friendly"@,
        verbosity: "balanced"@,
        creativity: parsed_or_null("0.5"@),
        formality: parsed_or_null("0.5"@),
        traits: seq!["helpful"@, "clear"@],
    }
}

impl Default for Personality {
    fn default() -> (r: Personality)
        ensures
            r@ == default_personality(),
    {
        let traits: Vec<String> = vec!["helpful".to_string(), "clear".to_string()];
        assert(texts(traits@) =~= seq!["helpful"@, "clear"@]);
        Personality {
            tone: "friendly".to_string(),
            verbosity: "balanced".to_string(),
            creativity: value_from_text("0.5"),
            formality: value_from_text("0.5"),
            traits: traits,
        }
    }
}

/// A new agent with the given id, made and last changed at the given times.
pub open spec fn default_agent(id: Seq<char>, created_at: Seq<char>, updated_at: Seq<char>) -> AgentView {
    AgentView {
        id: id,
        name: "New Agent"@,
        description: "A helpful AI assistant"@,
        avatar_emoji: "\u{1F916}"@,
        personality: default_personality(),
        system_prompt: "You are a helpful AI assistant."@,
        skills: Seq::empty(),
        instructions: Seq::empty(),
        tags: Seq::empty(),
        created_at: created_at,
        updated_at: updated_at,
        usage_count: 0,
        last_used_at: None,
    }
}

impl Agent {
    /// A new agent with the given id and times.
    pub fn new(id: String, created_at: String, updated_at: String) -> (r: Agent)
        ensures
            r@ == default_agent(id@, created_at@, updated_at@),
    {
        let r = Agent {
            id: id,
            name: "New Agent".to_string(),
            description: "A helpful AI assistant".to_string(),
            avatar_emoji: "\u{1F916}".to_string(),
            personality: Personality::default(),
            system_prompt: "You are a helpful AI assistant.".to_string(),
            skills: Vec::new(),
            instructions: Vec::new(),
            tags: Vec::new(),
            created_at: created_at,
            updated_at: updated_at,
            usage_count: 0,
            last_used_at: None,
        };
        assert(r@.tags =~= Seq::empty());
        r
    }
}

impl Default for Agent {
    /// A new agent with a fresh id, made now.
    fn default() -> (r: Agent)
        ensures
            r@ == default_agent(r@.id, r@.created_at, r@.updated_at),
    {
        let id = fresh_id();
        let created_at = now_text();
        let updated_at = now_text();
        Agent::new(id, created_at, updated_at)
    }
}

/// A new skill with the given id, made and last changed at the given times.
pub open spec fn default_skill(id: Seq<char>, created_at: Seq<char>, updated_at: Seq<char>) -> SkillView {
    SkillView {
        id: id,
        name: "New Skill"@,
        description: "A custom skill"@,
        icon_emoji: "\u{26A1}"@,
        skill_type: SkillType::Prompt,
        definition: SkillDefinitionView::Prompt { template: Seq::empty() },
        enabled: true,
        created_at: created_at,
        updated_at: updated_at,
    }
}

impl Skill {
    /// A new skill with the given id and times.
    pub fn new(id: String, created_at: String, updated_at: String) -> (r: Skill)
        ensures
            r@ == default_skill(id@, created_at@, updated_at@),
    {
        Skill {
            id: id,
            name: "New Skill".to_string(),
            description: "A custom skill".to_string(),
            icon_emoji: "\u{26A1}".to_string(),
            skill_type: SkillType::Prompt,
            definition: SkillDefinition::Prompt { template: String::new() },
            enabled: true,
            created_at: created_at,
            updated_at: updated_at,
        }
    }
}

impl Default for Skill {
    /// A new skill with a fresh id, made now.
    fn default() -> (r: Skill)
        ensures
            r@ == default_skill(r@.id, r@.created_at, r@.updated_at),
    {
        let id = fresh_id();
        let created_at = now_text();
        let updated_at = now_text();
        Skill::new(id, created_at, updated_at)
    }
}

/// A new instruction with the given id, made and last changed at the given
/// times.
pub open spec fn default_instruction(
    id: Seq<char>,
    created_at: Seq<char>,
    updated_at: Seq<char>,
) -> InstructionView {
    InstructionView {
        id: id,
        name: "New Instruction"@,
        description: "Custom instruction set"@,
        icon_emoji: "\u{1F4CB}"@,
        category: InstructionCategory::General,
        content: Seq::empty(),
        priority: 5,
        tags: Seq::empty(),
        enabled: true,
        created_at: created_at,
        updated_at: updated_at,
    }
}

impl Instruction {
    /// A new instruction with the given id and times.
    pub fn new(id: String, created_at: String, updated_at: String) -> (r: Instruction)
        ensures
            r@ == default_instruction(id@, created_at@, updated_at@),
    {
        let r = Instruction {
            id: id,
            name: "New Instruction".to_string(),
            description: "Custom instruction set".to_string(),
            icon_emoji: "\u{1F4CB}".to_string(),
            category: InstructionCategory::General,
            content: String::new(),
            priority: 5,
            tags: Vec::new(),
            enabled: true,
            created_at: created_at,
            updated_at: updated_at,
        };
        assert(r@.tags =~= Seq::empty());
        r
    }
}

impl Default for Instruction {
    /// A new instruction with a fresh id, made now.
    fn default() -> (r: Instruction)
        ensures
            r@ == default_instruction(r@.id, r@.created_at, r@.updated_at),
    {
        let id = fresh_id();
        let created_at = now_text();
        let updated_at = now_text();
        Instruction::new(id, created_at, updated_at)
    }
}

/// The theme of a new installation.
pub open spec fn default_theme() -> ThemeView {
    ThemeView { mode: "dark"@, accent_color: "#8b5cf6"@, emotional_ui: true }
}

impl Default for Theme {
    fn default() -> (r: Theme)
        ensures
            r@ == default_theme(),
    {
        Theme { mode: "dark".to_string(), accent_color: "#8b5cf6".to_string(), emotional_ui: true }
    }
}

/// The settings of a new installation.
pub open spec fn default_settings() -> SettingsView {
    SettingsView {
        theme: default_theme(),
        mcp_server_port: 3333,
        mcp_server_enabled: false,
        data_directory: None,
        auto_start_mcp: false,
    }
}

impl Default for Settings {
    fn default() -> (r: Settings)
        ensures
            r@ == default_settings(),
    {
        Settings {
            theme: Theme::default(),
            mcp_server_port: 3333,
            mcp_server_enabled: false,
            data_directory: None,
            auto_start_mcp: false,
        }
    }
}

// ---------------------------------------------------------------------------
// What a new store is seeded with
// ---------------------------------------------------------------------------

/// The agent a new store is seeded with, made and last changed at the given
/// times. Its id is `default`.
pub open spec fn seeded_agent(created_at: Seq<char>, updated_at: Seq<char>) -> AgentView {
    AgentView {
        id: "default"@,
        name: "Assistant"@,
        description: "The default assistant - helpful, harmless, and honest."@,
        avatar_emoji: "\u{F0}\u{178}\u{A7}\u{A0}"@,
        personality: PersonalityView {
            tone: "friendly"@,
            verbosity: "balanced"@,
            creativity: parsed_or_null("0.7"@),
            formality: parsed_or_null("0.5"@),
            traits: seq!["helpful"@, "thoughtful"@, "clear"@],
        },
        system_prompt: "You are an AI assistant made by Anthropic. You are helpful, harmless, and honest. You aim to be direct and concise while being warm and personable."@,
        skills: Seq::empty(),
        instructions: Seq::empty(),
        tags: seq!["default"@],
        created_at: created_at,
        updated_at: updated_at,
        usage_count: 0,
        last_used_at: None,
    }
}

/// The agent a new store is seeded with, made now.
pub fn create_default_agent() -> (r: Agent)
    ensures
        r@ == seeded_agent(r@.created_at, r@.updated_at),
{
    let traits: Vec<String> = vec![
        "helpful".to_string(),
        "thoughtful".to_string(),
        "clear".to_string(),
    ];
    assert(texts(traits@) =~= seq!["helpful"@, "thoughtful"@, "clear"@]);
    let tags: Vec<String> = vec!["default".to_string()];
    assert(texts(tags@) =~= seq!["default"@]);
    let r = Agent {
        id: "default".to_string(),
        name: "Assistant".to_string(),
        description: "The default assistant - helpful, harmless, and honest.".to_string(),
        avatar_emoji: "\u{F0}\u{178}\u{A7}\u{A0}".to_string(),
        personality: Personality {
            tone: "friendly".to_string(),
            verbosity: "balanced".to_string(),
            creativity: value_from_text("0.7"),
            formality: value_from_text("0.5"),
            traits: traits,
        },
        system_prompt: "You are an AI assistant made by Anthropic. You are helpful, harmless, and honest. You aim to be direct and concise while being warm and personable.".to_string(),
        skills: Vec::new(),
        instructions: Vec::new(),
        tags: tags,
        created_at: now_text(),
        updated_at: now_text(),
        usage_count: 0,
        last_used_at: None,
    };
    assert(r@.skills =~= Seq::empty());
    assert(r@.instructions =~= Seq::empty());
    r
}

/// A prompt skill that is enabled.
pub open spec fn seeded_skill(
    id: Seq<char>,
    name: Seq<char>,
    description: Seq<char>,
    icon_emoji: Seq<char>,
    template: Seq<char>,
    created_at: Seq<char>,
    updated_at: Seq<char>,
) -> SkillView {
    SkillView {
        id: id,
        name: name,
        description: description,
        icon_emoji: icon_emoji,
        skill_type: SkillType::Prompt,
        definition: SkillDefinitionView::Prompt { template: template },
        enabled: true,
        created_at: created_at,
        updated_at: updated_at,
    }
}

/// The first of the two seeded skills.
pub open spec fn code_review_skill(created_at: Seq<char>, updated_at: Seq<char>) -> SkillView {
    seeded_skill(
        "code-review"@,
        "Code Review"@,
        "Perform thorough code reviews with constructive feedback"@,
        "\u{F0}\u{178}\u{201D}"@,
        "Review the following code for:\n- Bugs and potential issues\n- Performance optimizations\n- Code style and best practices\n- Security concerns\n\nProvide specific, actionable feedback."@,
        created_at,
        updated_at,
    )
}

/// The second of the two seeded skills.
pub open spec fn explain_code_skill(created_at: Seq<char>, updated_at: Seq<char>) -> SkillView {
    seeded_skill(
        "explain-code"@,
        "Explain Code"@,
        "Explain code in clear, simple terms"@,
        "\u{F0}\u{178}\u{201C}\u{161}"@,
        "Explain this code step by step:\n1. What does it do overall?\n2. Break down each important section\n3. Highlight any clever or tricky parts\n4. Suggest improvements if applicable"@,
        created_at,
        updated_at,
    )
}

fn seed_skill(id: &str, name: &str, description: &str, icon_emoji: &str, template: &str) -> (r:
    Skill)
    ensures
        r@ == seeded_skill(
            id@,
            name@,
            description@,
            icon_emoji@,
            template@,
            r@.created_at,
            r@.updated_at,
        ),
{
    Skill {
        id: id.to_string(),
        name: name.to_string(),
        description: description.to_string(),
        icon_emoji: icon_emoji.to_string(),
        skill_type: SkillType::Prompt,
        definition: SkillDefinition::Prompt { template: template.to_string() },
        enabled: true,
        created_at: now_text(),
        updated_at: now_text(),
    }
}

/// The two skills a new store is seeded with, made now.
pub fn create_default_skills() -> (r: Vec<Skill>)
    ensures
        r@.len() == 2,
        r@[0]@ == code_review_skill(r@[0]@.created_at, r@[0]@.updated_at),
        r@[1]@ == explain_code_skill(r@[1]@.created_at, r@[1]@.updated_at),
{
    let mut r: Vec<Skill> = Vec::new();
    r.push(
        seed_skill(
            "code-review",
            "Code Review",
            "Perform thorough code reviews with constructive feedback",
            "\u{F0}\u{178}\u{201D}",
            "Review the following code for:\n- Bugs and potential issues\n- Performance optimizations\n- Code style and best practices\n- Security concerns\n\nProvide specific, actionable feedback.",
        ),
    );
    r.push(
        seed_skill(
            "explain-code",
            "Explain Code",
            "Explain code in clear, simple terms",
            "\u{F0}\u{178}\u{201C}\u{161}",
            "Explain this code step by step:\n1. What does it do overall?\n2. Break down each important section\n3. Highlight any clever or tricky parts\n4. Suggest improvements if applicable",
        ),
    );
    r
}

/// An instruction that is enabled.
pub open spec fn seeded_instruction(
    id: Seq<char>,
    name: Seq<char>,
    description: Seq<char>,
    icon_emoji: Seq<char>,
    category: InstructionCategory,
    content: Seq<char>,
    priority: u8,
    tags: Seq<Seq<char>>,
    created_at: Seq<char>,
    updated_at: Seq<char>,
) -> InstructionView {
    InstructionView {
        id: id,
        name: name,
        description: description,
        icon_emoji: icon_emoji,
        category: category,
        content: content,
        priority: priority,
        tags: tags,
        enabled: true,
        created_at: created_at,
        updated_at: updated_at,
    }
}

/// The first of the two seeded instructions.
pub open spec fn code_style_instruction(created_at: Seq<char>, updated_at: Seq<char>) -> InstructionView {
    seeded_instruction(
        "code-style"@,
        "Code Style Guidelines"@,
        "Standard code formatting and style rules"@,
        "\u{F0}\u{178}\u{201C}"@,
        InstructionCategory::CodeStyle,
        "# Code Style Guidelines\n\n- Use meaningful variable and function names\n- Keep functions small and focused (max 20-30 lines)\n- Add comments for complex logic, not obvious code\n- Follow the language's official style guide\n- Use consistent indentation (spaces preferred)\n- Group related code together\n- Avoid deep nesting (max 3 levels)"@,
        7,
        seq!["code"@, "style"@],
        created_at,
        updated_at,
    )
}

/// The second of the two seeded instructions.
pub open spec fn communication_instruction(created_at: Seq<char>, updated_at: Seq<char>) -> InstructionView {
    seeded_instruction(
        "communication"@,
        "Communication Style"@,
        "How to communicate responses"@,
        "\u{F0}\u{178}\u{2019}\u{AC}"@,
        InstructionCategory::Communication,
        "# Communication Style\n\n- Be direct and concise\n- Start with the answer, then explain\n- Use code examples when helpful\n- Format responses with markdown\n- Break complex topics into steps\n- Acknowledge uncertainty honestly\n- Ask clarifying questions when needed"@,
        8,
        seq!["communication"@],
        created_at,
        updated_at,
    )
}

fn seed_instruction(
    id: &str,
    name: &str,
    description: &str,
    icon_emoji: &str,
    category: InstructionCategory,
    content: &str,
    priority: u8,
    tags: Vec<String>,
) -> (r: Instruction)
    ensures
        r@ == seeded_instruction(
            id@,
            name@,
            description@,
            icon_emoji@,
            category,
            content@,
            priority,
            texts(tags@),
            r@.created_at,
            r@.updated_at,
        ),
{
    Instruction {
        id: id.to_string(),
        name: name.to_string(),
        description: description.to_string(),
        icon_emoji: icon_emoji.to_string(),
        category: category,
        content: content.to_string(),
        priority: priority,
        tags: tags,
        enabled: true,
        created_at: now_text(),
        updated_at: now_text(),
    }
}

/// The two instructions a new store is seeded with, made now.
pub fn create_default_instructions() -> (r: Vec<Instruction>)
    ensures
        r@.len() == 2,
        r@[0]@ == code_style_instruction(r@[0]@.created_at, r@[0]@.updated_at),
        r@[1]@ == communication_instruction(r@[1]@.created_at, r@[1]@.updated_at),
{
    let style_tags: Vec<String> = vec!["code".to_string(), "style".to_string()];
    assert(texts(style_tags@) =~= seq!["code"@, "style"@]);
    let talk_tags: Vec<String> = vec!["communication".to_string()];
    assert(texts(talk_tags@) =~= seq!["communication"@]);
    let mut r: Vec<Instruction> = Vec::new();
    r.push(
        seed_instruction(
            "code-style",
            "Code Style Guidelines",
            "Standard code formatting and style rules",
            "\u{F0}\u{178}\u{201C}",
            InstructionCategory::CodeStyle,
            "# Code Style Guidelines\n\n- Use meaningful variable and function names\n- Keep functions small and focused (max 20-30 lines)\n- Add comments for complex logic, not obvious code\n- Follow the language's official style guide\n- Use consistent indentation (spaces preferred)\n- Group related code together\n- Avoid deep nesting (max 3 levels)",
            7,
            style_tags,
        ),
    );
    r.push(
        seed_instruction(
            "communication",
            "Communication Style",
            "How to communicate responses",
            "\u{F0}\u{178}\u{2019}\u{AC}",
            InstructionCategory::Communication,
            "# Communication Style\n\n- Be direct and concise\n- Start with the answer, then explain\n- Use code examples when helpful\n- Format responses with markdown\n- Break complex topics into steps\n- Acknowledge uncertainty honestly\n- Ask clarifying questions when needed",
            8,
            talk_tags,
        ),
    );
    r
}

} // verus!
