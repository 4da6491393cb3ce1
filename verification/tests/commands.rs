use prompt_forge::commands::apply_agent;
use prompt_forge::commands::create_agent;
use prompt_forge::commands::create_instruction;
use prompt_forge::commands::create_skill;
use prompt_forge::commands::get_mcp_status;
use prompt_forge::json::value_from_text;
use prompt_forge::models::Agent;
use prompt_forge::models::CreateAgentInput;
use prompt_forge::models::CreateInstructionInput;
use prompt_forge::models::CreateSkillInput;
use prompt_forge::models::Instruction;
use prompt_forge::models::InstructionCategory;
use prompt_forge::models::Personality;
use prompt_forge::models::Skill;
use prompt_forge::models::SkillDefinition;
use prompt_forge::models::SkillType;
use serde_json::Value;

fn personality() -> Personality {
    Personality {
        tone: "dry".to_string(),
        verbosity: "terse".to_string(),
        creativity: Value::from(0.25),
        formality: Value::from(1),
        traits: vec!["exact".to_string(), "calm".to_string()],
    }
}

fn agent(id: &str, name: &str, skills: &[&str], instructions: &[&str]) -> Agent {
    Agent {
        id: id.to_string(),
        name: name.to_string(),
        description: "An agent".to_string(),
        avatar_emoji: "\u{1F916}".to_string(),
        personality: personality(),
        system_prompt: "You help.".to_string(),
        skills: skills.iter().map(|s| s.to_string()).collect(),
        instructions: instructions.iter().map(|s| s.to_string()).collect(),
        tags: vec![],
        created_at: "2024-01-01T00:00:00Z".to_string(),
        updated_at: "2024-01-01T00:00:00Z".to_string(),
        usage_count: 0,
        last_used_at: None,
    }
}

fn skill(id: &str, name: &str, definition: SkillDefinition, enabled: bool) -> Skill {
    Skill {
        id: id.to_string(),
        name: name.to_string(),
        description: format!("Does {}", name),
        icon_emoji: "\u{26A1}".to_string(),
        skill_type: SkillType::Prompt,
        definition,
        enabled,
        created_at: "2024-01-01T00:00:00Z".to_string(),
        updated_at: "2024-01-01T00:00:00Z".to_string(),
    }
}

fn instruction(id: &str, content: &str, enabled: bool) -> Instruction {
    Instruction {
        id: id.to_string(),
        name: id.to_string(),
        description: "An instruction".to_string(),
        icon_emoji: "\u{1F4CB}".to_string(),
        category: InstructionCategory::General,
        content: content.to_string(),
        priority: 5,
        tags: vec![],
        enabled,
        created_at: "2024-01-01T00:00:00Z".to_string(),
        updated_at: "2024-01-01T00:00:00Z".to_string(),
    }
}

#[test]
fn created_agent_keeps_what_was_entered() {
    let a = create_agent(CreateAgentInput {
        name: "N".to_string(),
        description: "D".to_string(),
        avatar_emoji: "E".to_string(),
        personality: personality(),
        system_prompt: "P".to_string(),
        skills: vec!["s".to_string()],
        instructions: vec!["i".to_string(), "j".to_string()],
        tags: vec!["t".to_string()],
    });
    assert_eq!(a.name, "N");
    assert_eq!(a.description, "D");
    assert_eq!(a.avatar_emoji, "E");
    assert_eq!(a.personality.tone, "dry");
    assert_eq!(a.personality.creativity, Value::from(0.25));
    assert_eq!(a.system_prompt, "P");
    assert_eq!(a.skills, vec!["s".to_string()]);
    assert_eq!(a.instructions, vec!["i".to_string(), "j".to_string()]);
    assert_eq!(a.tags, vec!["t".to_string()]);
    assert_eq!(a.usage_count, 0);
    assert_eq!(a.last_used_at, None);
    assert!(uuid::Uuid::parse_str(&a.id).is_ok());
    assert!(chrono::DateTime::parse_from_rfc3339(&a.created_at).is_ok());
    assert!(chrono::DateTime::parse_from_rfc3339(&a.updated_at).is_ok());
}

#[test]
fn agent_from_input_takes_id_and_times_as_given() {
    let a = Agent::from_input(
        CreateAgentInput {
            name: "N".to_string(),
            description: "D".to_string(),
            avatar_emoji: "E".to_string(),
            personality: personality(),
            system_prompt: "P".to_string(),
            skills: vec![],
            instructions: vec![],
            tags: vec![],
        },
        "the-id".to_string(),
        "t0".to_string(),
        "t1".to_string(),
    );
    assert_eq!(a.id, "the-id");
    assert_eq!(a.created_at, "t0");
    assert_eq!(a.updated_at, "t1");
    assert_eq!(a.name, "N");
}

#[test]
fn created_skill_keeps_what_was_entered() {
    let s = create_skill(CreateSkillInput {
        name: "N".to_string(),
        description: "D".to_string(),
        icon_emoji: "E".to_string(),
        skill_type: SkillType::Workflow,
        definition: SkillDefinition::Workflow { steps: vec![] },
        enabled: false,
    });
    assert_eq!(s.name, "N");
    assert_eq!(s.description, "D");
    assert_eq!(s.icon_emoji, "E");
    assert_eq!(s.skill_type, SkillType::Workflow);
    assert!(matches!(s.definition, SkillDefinition::Workflow { .. }));
    assert!(!s.enabled);
    assert!(uuid::Uuid::parse_str(&s.id).is_ok());
    let given = Skill::from_input(
        CreateSkillInput {
            name: "N".to_string(),
            description: "D".to_string(),
            icon_emoji: "E".to_string(),
            skill_type: SkillType::Tool,
            definition: SkillDefinition::Tool { parameters: vec![], handler: "h".to_string() },
            enabled: true,
        },
        "id".to_string(),
        "t0".to_string(),
        "t1".to_string(),
    );
    assert_eq!((given.id.as_str(), given.created_at.as_str(), given.updated_at.as_str()), ("id", "t0", "t1"));
    assert_eq!(given.skill_type, SkillType::Tool);
}

#[test]
fn created_instruction_keeps_what_was_entered() {
    let i = create_instruction(CreateInstructionInput {
        name: "N".to_string(),
        description: "D".to_string(),
        icon_emoji: "E".to_string(),
        category: InstructionCategory::Testing,
        content: "C".to_string(),
        priority: 255,
        tags: vec!["t".to_string()],
        enabled: false,
    });
    assert_eq!(i.name, "N");
    assert_eq!(i.description, "D");
    assert_eq!(i.icon_emoji, "E");
    assert_eq!(i.category, InstructionCategory::Testing);
    assert_eq!(i.content, "C");
    assert_eq!(i.priority, 255);
    assert_eq!(i.tags, vec!["t".to_string()]);
    assert!(!i.enabled);
    assert!(uuid::Uuid::parse_str(&i.id).is_ok());
    let given = Instruction::from_input(
        CreateInstructionInput {
            name: "N".to_string(),
            description: "D".to_string(),
            icon_emoji: "E".to_string(),
            category: InstructionCategory::Custom,
            content: "C".to_string(),
            priority: 0,
            tags: vec![],
            enabled: true,
        },
        "id".to_string(),
        "t0".to_string(),
        "t1".to_string(),
    );
    assert_eq!((given.id.as_str(), given.created_at.as_str(), given.updated_at.as_str()), ("id", "t0", "t1"));
    assert_eq!(given.priority, 0);
}

#[test]
fn status_lists_tools_then_agents_then_skills() {
    let agents = vec![agent("a1", "Code Helper", &[], &[]), agent("a2", "The Big_Writer-X", &[], &[])];
    let skills = vec![skill("s1", "Code Review", SkillDefinition::Workflow { steps: vec![] }, false)];
    let status = get_mcp_status(true, 3333, &agents, &skills);
    assert!(status.running);
    assert_eq!(status.port, 3333);
    assert_eq!(status.connected_clients, 0);
    assert_eq!(
        status.available_tools,
        vec![
            "list_agents",
            "get_agent",
            "list_skills",
            "get_skill",
            "get_instructions",
            "apply_agent",
            "agent:code_helper",
            "agent:the_big_writer-x",
            "skill:code_review",
        ]
    );
    let idle = get_mcp_status(false, 1, &vec![], &vec![]);
    assert!(!idle.running);
    assert_eq!(idle.port, 1);
    assert_eq!(idle.available_tools.len(), 6);
}

#[test]
fn persona_prompt_has_personality_skills_and_instructions() {
    let agents = vec![agent("a1", "Helper", &["s2", "s1", "s3", "s4"], &["i2", "i1", "i3"])];
    let skills = vec![
        skill("s1", "Review", SkillDefinition::Prompt { template: "Look.".to_string() }, true),
        skill("s2", "Build", SkillDefinition::Tool { parameters: vec![], handler: "h".to_string() }, true),
        skill("s3", "Off", SkillDefinition::Prompt { template: "No.".to_string() }, false),
        skill("s5", "Other", SkillDefinition::Prompt { template: "No.".to_string() }, true),
    ];
    let instructions = vec![
        instruction("i1", "First.", true),
        instruction("i9", "Not attached.", true),
        instruction("i2", "Second.", true),
        instruction("i3", "Disabled.", false),
    ];
    let text = apply_agent(&agents, &skills, &instructions, "HELPER").unwrap();
    assert_eq!(
        text,
        "You help.\n\n## Personality\n- Tone: dry\n- Verbosity: terse\n- Traits: exact, calm\
\n\n## Available Skills\n\n### Review\nDoes Review\nTemplate: Look.\n\n### Build\nDoes Build\n\
\n\n## Instructions\n\nFirst.\n\nSecond.\n"
    );
}

#[test]
fn persona_prompt_without_attachments() {
    let mut a = agent("a1", "Helper", &["gone"], &["gone"]);
    a.personality.traits = vec![];
    let text = apply_agent(&vec![a], &vec![], &vec![], "helper").unwrap();
    assert_eq!(text, "You help.\n\n## Personality\n- Tone: dry\n- Verbosity: terse\n- Traits: ");
}

#[test]
fn persona_is_found_by_name_only() {
    let agents = vec![agent("first", "Second", &[], &[]), agent("x", "First", &[], &[])];
    assert!(apply_agent(&agents, &vec![], &vec![], "x").is_err());
    assert_eq!(
        apply_agent(&agents, &vec![], &vec![], "Nobody"),
        Err("Agent 'Nobody' not found".to_string())
    );
    assert!(apply_agent(&agents, &vec![], &vec![], "first").is_ok());
    assert!(apply_agent(&agents, &vec![], &vec![], "SECOND").is_ok());
}

#[test]
fn value_from_text_reads_a_number_or_gives_null() {
    assert_eq!(value_from_text("0.5"), Value::from(0.5));
    assert_eq!(value_from_text("7"), Value::from(7));
    assert_eq!(value_from_text("not a number"), Value::Null);
    assert_eq!(value_from_text(""), Value::Null);
}
