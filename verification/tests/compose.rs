use prompt_forge::compose::compose_prompt;
use prompt_forge::models::Agent;
use prompt_forge::models::Instruction;
use prompt_forge::models::InstructionCategory;
use prompt_forge::models::Personality;
use prompt_forge::models::Skill;
use prompt_forge::models::SkillDefinition;
use prompt_forge::models::SkillType;
use serde_json::Value;

fn agent(id: &str, name: &str, skills: &[&str], instructions: &[&str]) -> Agent {
    Agent {
        id: id.to_string(),
        name: name.to_string(),
        description: "An agent".to_string(),
        avatar_emoji: "\u{1F916}".to_string(),
        personality: Personality {
            tone: "friendly".to_string(),
            verbosity: "balanced".to_string(),
            creativity: Value::from(0.5),
            formality: Value::from(0.5),
            traits: vec!["helpful".to_string(), "clear".to_string()],
        },
        system_prompt: "You help.".to_string(),
        skills: skills.iter().map(|s| s.to_string()).collect(),
        instructions: instructions.iter().map(|s| s.to_string()).collect(),
        tags: vec![],
        created_at: "2024-01-01T00:00:00Z".to_string(),
        updated_at: "2024-01-01T00:00:00Z".to_string(),
        usage_count: 0,
        last_used_at: None,
    }
}

fn prompt_skill(id: &str, name: &str, template: &str, enabled: bool) -> Skill {
    Skill {
        id: id.to_string(),
        name: name.to_string(),
        description: "A skill".to_string(),
        icon_emoji: "\u{26A1}".to_string(),
        skill_type: SkillType::Prompt,
        definition: SkillDefinition::Prompt { template: template.to_string() },
        enabled,
        created_at: "2024-01-01T00:00:00Z".to_string(),
        updated_at: "2024-01-01T00:00:00Z".to_string(),
    }
}

fn tool_skill(id: &str, name: &str) -> Skill {
    Skill {
        id: id.to_string(),
        name: name.to_string(),
        description: "A tool".to_string(),
        icon_emoji: "\u{1F527}".to_string(),
        skill_type: SkillType::Tool,
        definition: SkillDefinition::Tool { parameters: vec![], handler: "run.sh".to_string() },
        enabled: true,
        created_at: "2024-01-01T00:00:00Z".to_string(),
        updated_at: "2024-01-01T00:00:00Z".to_string(),
    }
}

fn workflow_skill(id: &str, name: &str) -> Skill {
    Skill {
        id: id.to_string(),
        name: name.to_string(),
        description: "A workflow".to_string(),
        icon_emoji: "\u{1F501}".to_string(),
        skill_type: SkillType::Workflow,
        definition: SkillDefinition::Workflow { steps: vec![] },
        enabled: true,
        created_at: "2024-01-01T00:00:00Z".to_string(),
        updated_at: "2024-01-01T00:00:00Z".to_string(),
    }
}

fn instruction(
    id: &str,
    name: &str,
    content: &str,
    priority: u8,
    category: InstructionCategory,
    enabled: bool,
) -> Instruction {
    Instruction {
        id: id.to_string(),
        name: name.to_string(),
        description: "An instruction".to_string(),
        icon_emoji: "\u{1F4CB}".to_string(),
        category,
        content: content.to_string(),
        priority,
        tags: vec![],
        enabled,
        created_at: "2024-01-01T00:00:00Z".to_string(),
        updated_at: "2024-01-01T00:00:00Z".to_string(),
    }
}

fn count(text: &str, part: &str) -> usize {
    text.matches(part).count()
}

#[test]
fn composed_prompt_has_every_section_in_order() {
    let a = agent("a1", "Helper", &["s1", "s2", "missing", "s3"], &["i1"]);
    let skills = vec![
        prompt_skill("s1", "Review", "Review the code.", true),
        prompt_skill("s2", "Hidden", "Never shown.", false),
        tool_skill("s3", "Build"),
    ];
    let instructions = vec![
        instruction("i1", "One", "X", 5, InstructionCategory::General, true),
        instruction("i2", "Two", "Y", 5, InstructionCategory::Security, true),
    ];
    let text = compose_prompt(&a, &skills, &instructions);
    let expected = "# Agent Configuration\n\n\
**Agent:** \u{1F916} Helper\n\n\
**Tone:** friendly | **Verbosity:** balanced\n\n\
**Traits:** helpful, clear\n\n\
## System Prompt\n\nYou help.\n\n\
## Attached Skills\n\n\
### \u{26A1} Review\nReview the code.\n\n\
### \u{1F527} Build\n\
## Attached Instructions\n\n\
### \u{1F4CB} One\nX\n\n\
## Global Instructions\n\n\
### \u{1F4CB} Two (security)\nY\n\n";
    assert_eq!(text, expected);
}

#[test]
fn attached_instruction_is_not_repeated_as_global() {
    let a = agent("a1", "Helper", &[], &["i1"]);
    let instructions = vec![
        instruction("i1", "One", "X", 5, InstructionCategory::General, true),
        instruction("i2", "Two", "Y", 5, InstructionCategory::General, true),
    ];
    let text = compose_prompt(&a, &vec![], &instructions);
    let attached = text.find("## Attached Instructions\n\n").unwrap();
    let global = text.find("## Global Instructions\n\n").unwrap();
    assert!(attached < global);
    assert_eq!(count(&text, "### \u{1F4CB} One\nX\n\n"), 1);
    assert_eq!(count(&text, "\nY\n\n"), 1);
    let x = text.find("### \u{1F4CB} One\nX\n\n").unwrap();
    let y = text.find("### \u{1F4CB} Two (general)\nY\n\n").unwrap();
    assert!(attached < x && x < global);
    assert!(global < y);
    assert_eq!(count(&text, "One"), 1);
    assert!(!text.contains("## Attached Skills"));
}

#[test]
fn global_section_keeps_snapshot_order() {
    let a = agent("a1", "Helper", &[], &[]);
    let instructions = vec![
        instruction("low", "Low", "three", 3, InstructionCategory::General, true),
        instruction("high", "High", "nine", 9, InstructionCategory::General, true),
    ];
    let text = compose_prompt(&a, &vec![], &instructions);
    let low = text.find("### \u{1F4CB} Low (general)\nthree\n\n").unwrap();
    let high = text.find("### \u{1F4CB} High (general)\nnine\n\n").unwrap();
    assert!(low < high);
    assert!(!text.contains("## Attached Instructions"));
}

#[test]
fn disabled_references_are_skipped_without_error() {
    let a = agent("a1", "Helper", &["s1"], &["i1"]);
    let skills = vec![prompt_skill("s1", "Hidden", "Never shown.", false)];
    let instructions =
        vec![instruction("i1", "Off", "Never shown either.", 5, InstructionCategory::General, false)];
    let text = compose_prompt(&a, &skills, &instructions);
    assert!(!text.contains("Hidden"));
    assert!(!text.contains("Never shown"));
    assert!(!text.contains("Off"));
    assert!(text.ends_with("## System Prompt\n\nYou help.\n\n"));
    assert!(!text.contains("## Attached Skills"));
    assert!(!text.contains("## Attached Instructions"));
    assert!(!text.contains("## Global Instructions"));
}

#[test]
fn disabled_records_leave_the_prompt_unchanged() {
    let a = agent("a1", "Helper", &["s1", "s2"], &["i1", "i2"]);
    let with = compose_prompt(
        &a,
        &vec![
            prompt_skill("s2", "Hidden", "Never shown.", false),
            prompt_skill("s1", "Review", "Review the code.", true),
        ],
        &vec![
            instruction("i2", "Off", "No.", 9, InstructionCategory::General, false),
            instruction("i1", "One", "X", 5, InstructionCategory::General, true),
            instruction("i3", "Off too", "No.", 1, InstructionCategory::General, false),
        ],
    );
    let without = compose_prompt(
        &a,
        &vec![prompt_skill("s1", "Review", "Review the code.", true)],
        &vec![instruction("i1", "One", "X", 5, InstructionCategory::General, true)],
    );
    assert_eq!(with, without);
}

#[test]
fn missing_references_are_skipped() {
    let a = agent("a1", "Helper", &["nowhere"], &["nowhere"]);
    let text = compose_prompt(&a, &vec![], &vec![]);
    assert!(text.ends_with("## System Prompt\n\nYou help.\n\n"));
    assert!(!text.contains("## Attached Skills"));
    assert!(!text.contains("## Attached Instructions"));
}

#[test]
fn section_without_content_is_left_out_with_its_heading() {
    let a = agent("a1", "Helper", &["off", "gone"], &["i1", "gone"]);
    let skills = vec![prompt_skill("off", "Hidden", "Never shown.", false)];
    let instructions = vec![instruction("i1", "One", "X", 5, InstructionCategory::General, true)];
    let text = compose_prompt(&a, &skills, &instructions);
    assert!(text.ends_with(
        "## System Prompt\n\nYou help.\n\n## Attached Instructions\n\n### \u{1F4CB} One\nX\n\n"
    ));
    assert!(!text.contains("## Attached Skills"));

    let b = agent("a2", "Helper", &["s1"], &["off"]);
    let skills = vec![tool_skill("s1", "Build")];
    let instructions =
        vec![instruction("off", "Off", "No.", 5, InstructionCategory::General, false)];
    let text = compose_prompt(&b, &skills, &instructions);
    assert!(text.ends_with("## System Prompt\n\nYou help.\n\n## Attached Skills\n\n### \u{1F527} Build\n"));
    assert!(!text.contains("## Attached Instructions"));
    assert!(!text.contains("## Global Instructions"));
}

#[test]
fn only_prompt_skills_have_a_body() {
    let a = agent("a1", "Helper", &["t", "w", "p"], &[]);
    let skills =
        vec![tool_skill("t", "Build"), workflow_skill("w", "Flow"), prompt_skill("p", "Ask", "Why?", true)];
    let text = compose_prompt(&a, &skills, &vec![]);
    assert!(text.ends_with(
        "## Attached Skills\n\n### \u{1F527} Build\n### \u{1F501} Flow\n### \u{26A1} Ask\nWhy?\n\n"
    ));
}

#[test]
fn skills_follow_the_order_of_the_references() {
    let a = agent("a1", "Helper", &["b", "a", "b"], &[]);
    let skills = vec![prompt_skill("a", "First", "1", true), prompt_skill("b", "Second", "2", true)];
    let text = compose_prompt(&a, &skills, &vec![]);
    assert!(text.ends_with(
        "## Attached Skills\n\n### \u{26A1} Second\n2\n\n### \u{26A1} First\n1\n\n### \u{26A1} Second\n2\n\n"
    ));
}

#[test]
fn first_enabled_record_with_an_id_is_taken() {
    let a = agent("a1", "Helper", &["s"], &[]);
    let skills = vec![
        prompt_skill("s", "Off", "0", false),
        prompt_skill("s", "On", "1", true),
        prompt_skill("s", "Later", "2", true),
    ];
    let text = compose_prompt(&a, &skills, &vec![]);
    assert!(text.ends_with("## Attached Skills\n\n### \u{26A1} On\n1\n\n"));
}

#[test]
fn header_without_traits_has_no_trait_line() {
    let mut a = agent("a1", "Helper", &[], &[]);
    a.personality.traits = vec![];
    let text = compose_prompt(&a, &vec![], &vec![]);
    assert_eq!(
        text,
        "# Agent Configuration\n\n**Agent:** \u{1F916} Helper\n\n**Tone:** friendly | **Verbosity:** balanced\n\n## System Prompt\n\nYou help.\n\n"
    );
}

#[test]
fn composition_is_repeatable() {
    let a = agent("a1", "Helper", &["s1"], &["i1"]);
    let skills = vec![prompt_skill("s1", "Review", "Review the code.", true)];
    let instructions = vec![
        instruction("i1", "One", "X", 5, InstructionCategory::General, true),
        instruction("i2", "Two", "Y", 7, InstructionCategory::Testing, true),
    ];
    let first = compose_prompt(&a, &skills, &instructions);
    let second = compose_prompt(&a, &skills, &instructions);
    assert_eq!(first.as_bytes(), second.as_bytes());
}
