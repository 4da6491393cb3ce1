use prompt_forge::models::category_to_string;
use prompt_forge::models::skill_type_to_string;
use prompt_forge::models::string_to_category;
use prompt_forge::models::string_to_skill_type;
use prompt_forge::models::InstructionCategory;
use prompt_forge::models::SkillType;

fn all_categories() -> Vec<InstructionCategory> {
    vec![
        InstructionCategory::General,
        InstructionCategory::CodeStyle,
        InstructionCategory::Communication,
        InstructionCategory::Workflow,
        InstructionCategory::Security,
        InstructionCategory::Testing,
        InstructionCategory::Documentation,
        InstructionCategory::Custom,
    ]
}

#[test]
fn category_tokens() {
    assert_eq!(category_to_string(&InstructionCategory::General), "general");
    assert_eq!(category_to_string(&InstructionCategory::CodeStyle), "code_style");
    assert_eq!(category_to_string(&InstructionCategory::Communication), "communication");
    assert_eq!(category_to_string(&InstructionCategory::Workflow), "workflow");
    assert_eq!(category_to_string(&InstructionCategory::Security), "security");
    assert_eq!(category_to_string(&InstructionCategory::Testing), "testing");
    assert_eq!(category_to_string(&InstructionCategory::Documentation), "documentation");
    assert_eq!(category_to_string(&InstructionCategory::Custom), "custom");
}

#[test]
fn category_round_trip() {
    for c in all_categories() {
        assert_eq!(string_to_category(category_to_string(&c)), c);
    }
}

#[test]
fn unknown_category_is_general() {
    assert_eq!(string_to_category(""), InstructionCategory::General);
    assert_eq!(string_to_category("Security"), InstructionCategory::General);
    assert_eq!(string_to_category("codestyle"), InstructionCategory::General);
}

#[test]
fn skill_type_tokens() {
    assert_eq!(skill_type_to_string(&SkillType::Prompt), "prompt");
    assert_eq!(skill_type_to_string(&SkillType::Tool), "tool");
    assert_eq!(skill_type_to_string(&SkillType::Workflow), "workflow");
}

#[test]
fn skill_type_round_trip() {
    for t in [SkillType::Prompt, SkillType::Tool, SkillType::Workflow] {
        assert_eq!(string_to_skill_type(skill_type_to_string(&t)), t);
    }
}

#[test]
fn unknown_skill_type_is_prompt() {
    assert_eq!(string_to_skill_type(""), SkillType::Prompt);
    assert_eq!(string_to_skill_type("Tool"), SkillType::Prompt);
    assert_eq!(string_to_skill_type("script"), SkillType::Prompt);
}
