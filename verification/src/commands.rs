//! What the desktop commands compute, apart from reading and writing the
//! store: new records from what a user entered, the status report of the
//! server, and the prompt of an agent looked up by its name.

use vstd::prelude::*;
use vstd::string::StringExecFns;

use crate::fresh::fresh_id;
use crate::fresh::now_text;
use crate::lookup::agent_by_name;
use crate::lookup::contains_text;
use crate::lookup::find_agent_by_name;
use crate::models::agent_views;
use crate::models::instruction_views;
use crate::models::skill_views;
use crate::models::Agent;
use crate::models::AgentView;
use crate::models::CreateAgentInput;
use crate::models::CreateInstructionInput;
use crate::models::CreateSkillInput;
use crate::models::Instruction;
use crate::models::InstructionView;
use crate::models::McpStatus;
use crate::models::McpStatusView;
use crate::models::Skill;
use crate::models::SkillDefinition;
use crate::models::SkillDefinitionView;
use crate::models::SkillView;
use crate::text::join;
use crate::text::joined;
use crate::text::lowercase;
use crate::text::texts;
use crate::text::to_lowercase;
use crate::text::replace_char;
use crate::text::replaced;

verus! {

// ---------------------------------------------------------------------------
// New records
// ---------------------------------------------------------------------------

/// The agent made from what a user entered, with the given id and times.
/// It has not been used yet.
pub open spec fn agent_from_input(
    input: CreateAgentInput,
    id: Seq<char>,
    created_at: Seq<char>,
    updated_at: Seq<char>,
) -> AgentView {
    AgentView {
        id: id,
        name: input.name@,
        description: input.description@,
        avatar_emoji: input.avatar_emoji@,
        personality: input.personality@,
        system_prompt: input.system_prompt@,
        skills: texts(input.skills@),
        instructions: texts(input.instructions@),
        tags: texts(input.tags@),
        created_at: created_at,
        updated_at: updated_at,
        usage_count: 0,
        last_used_at: None,
    }
}

impl Agent {
    /// Makes an agent from what a user entered, with the given id and times.
    pub fn from_input(input: CreateAgentInput, id: String, created_at: String, updated_at: String) -> (r:
        Agent)
        ensures
            r@ == agent_from_input(input, id@, created_at@, updated_at@),
    {
        Agent {
            id: id,
            name: input.name,
            description: input.description,
            avatar_emoji: input.avatar_emoji,
            personality: input.personality,
            system_prompt: input.system_prompt,
            skills: input.skills,
            instructions: input.instructions,
            tags: input.tags,
            created_at: created_at,
            updated_at: updated_at,
            usage_count: 0,
            last_used_at: None,
        }
    }
}

/// Makes an agent from what a user entered, with a fresh id, made now.
pub fn create_agent(agent: CreateAgentInput) -> (r: Agent)
    ensures
        r@ == agent_from_input(agent, r@.id, r@.created_at, r@.updated_at),
{
    let id = fresh_id();
    let created_at = now_text();
    let updated_at = now_text();
    Agent::from_input(agent, id, created_at, updated_at)
}

/// The skill made from what a user entered, with the given id and times.
pub open spec fn skill_from_input(
    input: CreateSkillInput,
    id: Seq<char>,
    created_at: Seq<char>,
    updated_at: Seq<char>,
) -> SkillView {
    SkillView {
        id: id,
        name: input.name@,
        description: input.description@,
        icon_emoji: input.icon_emoji@,
        skill_type: input.skill_type,
        definition: input.definition@,
        enabled: input.enabled,
        created_at: created_at,
        updated_at: updated_at,
    }
}

impl Skill {
    /// Makes a skill from what a user entered, with the given id and times.
    pub fn from_input(input: CreateSkillInput, id: String, created_at: String, updated_at: String) -> (r:
        Skill)
        ensures
            r@ == skill_from_input(input, id@, created_at@, updated_at@),
    {
        Skill {
            id: id,
            name: input.name,
            description: input.description,
            icon_emoji: input.icon_emoji,
            skill_type: input.skill_type,
            definition: input.definition,
            enabled: input.enabled,
            created_at: created_at,
            updated_at: updated_at,
        }
    }
}

/// Makes a skill from what a user entered, with a fresh id, made now.
pub fn create_skill(skill: CreateSkillInput) -> (r: Skill)
    ensures
        r@ == skill_from_input(skill, r@.id, r@.created_at, r@.updated_at),
{
    let id = fresh_id();
    let created_at = now_text();
    let updated_at = now_text();
    Skill::from_input(skill, id, created_at, updated_at)
}

/// The instruction made from what a user entered, with the given id and
/// times.
pub open spec fn instruction_from_input(
    input: CreateInstructionInput,
    id: Seq<char>,
    created_at: Seq<char>,
    updated_at: Seq<char>,
) -> InstructionView {
    InstructionView {
        id: id,
        name: input.name@,
        description: input.description@,
        icon_emoji: input.icon_emoji@,
        category: input.category,
        content: input.content@,
        priority: input.priority,
        tags: texts(input.tags@),
        enabled: input.enabled,
        created_at: created_at,
        updated_at: updated_at,
    }
}

impl Instruction {
    /// Makes an instruction from what a user entered, with the given id and
    /// times.
    pub fn from_input(
        input: CreateInstructionInput,
        id: String,
        created_at: String,
        updated_at: String,
    ) -> (r: Instruction)
        ensures
            r@ == instruction_from_input(input, id@, created_at@, updated_at@),
    {
        Instruction {
            id: id,
            name: input.name,
            description: input.description,
            icon_emoji: input.icon_emoji,
            category: input.category,
            content: input.content,
            priority: input.priority,
            tags: input.tags,
            enabled: input.enabled,
            created_at: created_at,
            updated_at: updated_at,
        }
    }
}

/// Makes an instruction from what a user entered, with a fresh id, made now.
pub fn create_instruction(instruction: CreateInstructionInput) -> (r: Instruction)
    ensures
        r@ == instruction_from_input(instruction, r@.id, r@.created_at, r@.updated_at),
{
    let id = fresh_id();
    let created_at = now_text();
    let updated_at = now_text();
    Instruction::from_input(instruction, id, created_at, updated_at)
}

// ---------------------------------------------------------------------------
// The status report
// ---------------------------------------------------------------------------

/// The label a record is offered under: a prefix, then the name of the
/// record in lower case with underscores for spaces.
pub open spec fn tool_label(prefix: Seq<char>, name: Seq<char>) -> Seq<char> {
    prefix + replaced(lowercase(name), ' ', '_')
}

/// The six tools every server offers.
pub open spec fn fixed_tools() -> Seq<Seq<char>> {
    seq![
        "list_agents"@,
        "get_agent"@,
        "list_skills"@,
        "get_skill"@,
        "get_instructions"@,
        "apply_agent"@,
    ]
}

/// What the server offers: the six tools, then a label for every agent, then
/// a label for every skill, each in snapshot order.
pub open spec fn available_tools(agents: Seq<AgentView>, skills: Seq<SkillView>) -> Seq<Seq<char>> {
    fixed_tools() + agents.map_values(|a: AgentView| tool_label("agent:"@, a.name))
        + skills.map_values(|s: SkillView| tool_label("skill:"@, s.name))
}

fn label(prefix: &str, name: &str) -> (r: String)
    ensures
        r@ == tool_label(prefix@, name@),
{
    let lower = to_lowercase(name);
    let tail = replace_char(lower.as_str(), ' ', '_');
    let mut r = String::from_str(prefix);
    r.append(tail.as_str());
    r
}

/// The status report of the server. Whether the server runs and on which
/// port is for the caller to find out; no client is ever counted.
pub fn get_mcp_status(running: bool, port: u16, agents: &Vec<Agent>, skills: &Vec<Skill>) -> (r:
    McpStatus)
    ensures
        r@ == (McpStatusView {
            running: running,
            port: port,
            connected_clients: 0,
            available_tools: available_tools(agent_views(agents@), skill_views(skills@)),
        }),
{
    let mut tools: Vec<String> = vec![
        "list_agents".to_string(),
        "get_agent".to_string(),
        "list_skills".to_string(),
        "get_skill".to_string(),
        "get_instructions".to_string(),
        "apply_agent".to_string(),
    ];
    let mut i: usize = 0;
    while i < agents.len()
        invariant
            i <= agents.len(),
            tools@.len() == 6 + i,
            forall|j: int| 0 <= j < 6 ==> (#[trigger] tools@[j])@ == fixed_tools()[j],
            forall|j: int|
                0 <= j < i ==> (#[trigger] tools@[6 + j])@ == tool_label(
                    "agent:"@,
                    agents@[j]@.name,
                ),
        decreases agents.len() - i,
    {
        tools.push(label("agent:", agents[i].name.as_str()));
        i += 1;
    }
    let mut k: usize = 0;
    while k < skills.len()
        invariant
            k <= skills.len(),
            tools@.len() == 6 + agents.len() + k,
            forall|j: int| 0 <= j < 6 ==> (#[trigger] tools@[j])@ == fixed_tools()[j],
            forall|j: int|
                0 <= j < agents.len() ==> (#[trigger] tools@[6 + j])@ == tool_label(
                    "agent:"@,
                    agents@[j]@.name,
                ),
            forall|j: int|
                0 <= j < k ==> (#[trigger] tools@[6 + agents.len() + j])@ == tool_label(
                    "skill:"@,
                    skills@[j]@.name,
                ),
        decreases skills.len() - k,
    {
        tools.push(label("skill:", skills[k].name.as_str()));
        k += 1;
    }
    proof {
        let all = available_tools(agent_views(agents@), skill_views(skills@));
        assert forall|j: int| 0 <= j < all.len() implies texts(tools@)[j] == all[j] by {
            if 6 <= j < 6 + agents.len() {
                assert(tools@[6 + (j - 6)]@ == tool_label("agent:"@, agents@[j - 6]@.name));
            } else if j >= 6 + agents.len() {
                let m = j - 6 - agents.len();
                assert(tools@[6 + agents.len() + m]@ == tool_label("skill:"@, skills@[m]@.name));
            }
        }
        assert(texts(tools@) =~= all);
    }
    McpStatus { running: running, port: port, connected_clients: 0, available_tools: tools }
}

// ---------------------------------------------------------------------------
// The prompt of an agent looked up by name
// ---------------------------------------------------------------------------

/// The personality of an agent, as a list.
pub open spec fn personality_text(a: AgentView) -> Seq<char> {
    "\n\n## Personality\n- Tone: "@ + a.personality.tone + "\n- Verbosity: "@
        + a.personality.verbosity + "\n- Traits: "@ + joined(a.personality.traits, ", "@)
}

/// Whether a skill is offered in the prompt of an agent: the agent attaches
/// it, and it is enabled.
pub open spec fn is_offered_skill(a: AgentView, s: SkillView) -> bool {
    a.skills.contains(s.id) && s.enabled
}

/// What one offered skill adds: name, description, and the template of a
/// prompt skill.
pub open spec fn offered_skill_block(s: SkillView) -> Seq<char> {
    "\n### "@ + s.name + "\n"@ + s.description + "\n"@ + match s.definition {
        SkillDefinitionView::Prompt { template } => "Template: "@ + template + "\n"@,
        SkillDefinitionView::Tool { .. } => Seq::empty(),
        SkillDefinitionView::Workflow { .. } => Seq::empty(),
    }
}

/// The blocks of the offered skills among the first `n` skills, in snapshot
/// order.
pub open spec fn offered_skill_blocks(a: AgentView, skills: Seq<SkillView>, n: nat) -> Seq<char>
    decreases n,
{
    if n == 0 {
        Seq::empty()
    } else if is_offered_skill(a, skills[n - 1]) {
        offered_skill_blocks(a, skills, (n - 1) as nat) + offered_skill_block(skills[n - 1])
    } else {
        offered_skill_blocks(a, skills, (n - 1) as nat)
    }
}

/// Whether one of the first `n` skills is offered.
pub open spec fn any_offered_skill(a: AgentView, skills: Seq<SkillView>, n: nat) -> bool
    decreases n,
{
    if n == 0 {
        false
    } else {
        is_offered_skill(a, skills[n - 1]) || any_offered_skill(a, skills, (n - 1) as nat)
    }
}

/// The section of offered skills; nothing if there is none.
pub open spec fn offered_skills_text(a: AgentView, skills: Seq<SkillView>) -> Seq<char> {
    if any_offered_skill(a, skills, skills.len()) {
        "\n\n## Available Skills\n"@ + offered_skill_blocks(a, skills, skills.len())
    } else {
        Seq::empty()
    }
}

/// Whether an instruction is part of the prompt of an agent: the agent
/// attaches it, and it is enabled.
pub open spec fn is_offered_instruction(a: AgentView, i: InstructionView) -> bool {
    a.instructions.contains(i.id) && i.enabled
}

/// The contents of the offered instructions among the first `n`
/// instructions, in snapshot order.
pub open spec fn offered_instruction_blocks(
    a: AgentView,
    instructions: Seq<InstructionView>,
    n: nat,
) -> Seq<char>
    decreases n,
{
    if n == 0 {
        Seq::empty()
    } else if is_offered_instruction(a, instructions[n - 1]) {
        offered_instruction_blocks(a, instructions, (n - 1) as nat) + "\n"@ + instructions[n
            - 1].content + "\n"@
    } else {
        offered_instruction_blocks(a, instructions, (n - 1) as nat)
    }
}

/// Whether one of the first `n` instructions is offered.
pub open spec fn any_offered_instruction(
    a: AgentView,
    instructions: Seq<InstructionView>,
    n: nat,
) -> bool
    decreases n,
{
    if n == 0 {
        false
    } else {
        is_offered_instruction(a, instructions[n - 1]) || any_offered_instruction(
            a,
            instructions,
            (n - 1) as nat,
        )
    }
}

/// The section of offered instructions; nothing if there is none.
pub open spec fn offered_instructions_text(a: AgentView, instructions: Seq<InstructionView>) -> Seq<
    char,
> {
    if any_offered_instruction(a, instructions, instructions.len()) {
        "\n\n## Instructions\n"@ + offered_instruction_blocks(
            a,
            instructions,
            instructions.len(),
        )
    } else {
        Seq::empty()
    }
}

/// The prompt to take on the persona of an agent: its system prompt, its
/// personality, and the enabled skills and instructions it attaches, these
/// in snapshot order.
pub open spec fn persona_prompt(
    a: AgentView,
    skills: Seq<SkillView>,
    instructions: Seq<InstructionView>,
) -> Seq<char> {
    a.system_prompt + personality_text(a) + offered_skills_text(a, skills)
        + offered_instructions_text(a, instructions)
}

/// The prompt of the agent with the given name, case ignored; a message if
/// no agent has that name.
pub open spec fn apply_agent_by_name(
    agents: Seq<AgentView>,
    skills: Seq<SkillView>,
    instructions: Seq<InstructionView>,
    name: Seq<char>,
) -> Result<Seq<char>, Seq<char>> {
    match agent_by_name(agents, lowercase(name), 0) {
        Some(i) => Ok(persona_prompt(agents[i], skills, instructions)),
        None => Err("Agent '"@ + name + "' not found"@),
    }
}

fn personality(agent: &Agent) -> (r: String)
    ensures
        r@ == personality_text(agent@),
{
    let mut r = String::from_str("\n\n## Personality\n- Tone: ");
    r.append(agent.personality.tone.as_str());
    r.append("\n- Verbosity: ");
    r.append(agent.personality.verbosity.as_str());
    r.append("\n- Traits: ");
    let traits = join(&agent.personality.traits, ", ");
    r.append(traits.as_str());
    r
}

fn offered_skill(skill: &Skill) -> (r: String)
    ensures
        r@ == offered_skill_block(skill@),
{
    let mut r = String::from_str("\n### ");
    r.append(skill.name.as_str());
    r.append("\n");
    r.append(skill.description.as_str());
    r.append("\n");
    match &skill.definition {
        SkillDefinition::Prompt { template } => {
            let mut body = String::from_str("Template: ");
            body.append(template.as_str());
            body.append("\n");
            r.append(body.as_str());
        },
        SkillDefinition::Tool { .. } => {},
        SkillDefinition::Workflow { .. } => {},
    }
    r
}

fn offered_skills(agent: &Agent, skills: &Vec<Skill>) -> (r: String)
    ensures
        r@ == offered_skills_text(agent@, skill_views(skills@)),
{
    let mut body = String::new();
    let mut any = false;
    let mut k: usize = 0;
    while k < skills.len()
        invariant
            k <= skills.len(),
            body@ == offered_skill_blocks(agent@, skill_views(skills@), k as nat),
            any == any_offered_skill(agent@, skill_views(skills@), k as nat),
        decreases skills.len() - k,
    {
        if contains_text(&agent.skills, skills[k].id.as_str()) && skills[k].enabled {
            let block = offered_skill(&skills[k]);
            body.append(block.as_str());
            any = true;
        }
        k += 1;
    }
    if any {
        let mut r = String::from_str("\n\n## Available Skills\n");
        r.append(body.as_str());
        r
    } else {
        String::new()
    }
}

fn offered_instructions(agent: &Agent, instructions: &Vec<Instruction>) -> (r: String)
    ensures
        r@ == offered_instructions_text(agent@, instruction_views(instructions@)),
{
    let mut body = String::new();
    let mut any = false;
    let mut k: usize = 0;
    while k < instructions.len()
        invariant
            k <= instructions.len(),
            body@ == offered_instruction_blocks(
                agent@,
                instruction_views(instructions@),
                k as nat,
            ),
            any == any_offered_instruction(agent@, instruction_views(instructions@), k as nat),
        decreases instructions.len() - k,
    {
        if contains_text(&agent.instructions, instructions[k].id.as_str())
            && instructions[k].enabled {
            body.append("\n");
            body.append(instructions[k].content.as_str());
            body.append("\n");
            any = true;
        }
        k += 1;
    }
    if any {
        let mut r = String::from_str("\n\n## Instructions\n");
        r.append(body.as_str());
        r
    } else {
        String::new()
    }
}

/// The prompt to take on the persona of the agent with the given name. The
/// name is compared without regard to case; ids are not looked at.
pub fn apply_agent(
    agents: &Vec<Agent>,
    skills: &Vec<Skill>,
    instructions: &Vec<Instruction>,
    agent_name: &str,
) -> (r: Result<String, String>)
    ensures
        match r {
            Ok(text) => apply_agent_by_name(
                agent_views(agents@),
                skill_views(skills@),
                instruction_views(instructions@),
                agent_name@,
            ) == Ok::<Seq<char>, Seq<char>>(text@),
            Err(message) => apply_agent_by_name(
                agent_views(agents@),
                skill_views(skills@),
                instruction_views(instructions@),
                agent_name@,
            ) == Err::<Seq<char>, Seq<char>>(message@),
        },
{
    let lower = to_lowercase(agent_name);
    match find_agent_by_name(agents, lower.as_str()) {
        Some(i) => {
            let agent = &agents[i];
            let mut r = String::new();
            r.append(agent.system_prompt.as_str());
            let p = personality(agent);
            r.append(p.as_str());
            let s = offered_skills(agent, skills);
            r.append(s.as_str());
            let t = offered_instructions(agent, instructions);
            r.append(t.as_str());
            assert(r@ =~= persona_prompt(
                agent@,
                skill_views(skills@),
                instruction_views(instructions@),
            ));
            Ok(r)
        },
        None => {
            let mut message = String::from_str("Agent '");
            message.append(agent_name);
            message.append("' not found");
            Err(message)
        },
    }
}

} // verus!
