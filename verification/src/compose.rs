//! Composing the prompt of an agent from a snapshot of records.
//!
//! The prompt is a fixed concatenation: a header, the system prompt, the
//! attached skills, the attached instructions, and the global instructions,
//! which are the enabled instructions that the agent does not attach.
//! References to records that are missing or disabled are skipped, and a
//! section that would hold nothing is left out together with its heading.

use vstd::prelude::*;
use vstd::string::StringExecFns;

use crate::lookup::contains_text;
use crate::lookup::enabled_instruction;
use crate::lookup::enabled_skill;
use crate::lookup::find_enabled_instruction;
use crate::lookup::find_enabled_skill;
use crate::models::category_text;
use crate::models::category_to_string;
use crate::models::instruction_views;
use crate::models::skill_views;
use crate::models::Agent;
use crate::models::AgentView;
use crate::models::Instruction;
use crate::models::InstructionView;
use crate::models::Skill;
use crate::models::SkillDefinition;
use crate::models::SkillDefinitionView;
use crate::models::SkillView;
use crate::text::join;
use crate::text::joined;
use crate::text::texts;

verus! {

/// The header: title, avatar and name, tone and verbosity, and the traits if
/// there are any.
pub open spec fn header_text(a: AgentView) -> Seq<char> {
    "# Agent Configuration\n\n"@ + "**Agent:** "@ + a.avatar_emoji + " "@ + a.name + "\n\n"@
        + "**Tone:** "@ + a.personality.tone + " | **Verbosity:** "@ + a.personality.verbosity
        + "\n\n"@ + traits_text(a.personality.traits)
}

/// The line of traits, joined by commas; nothing for an agent without traits.
pub open spec fn traits_text(traits: Seq<Seq<char>>) -> Seq<char> {
    if traits.len() == 0 {
        Seq::empty()
    } else {
        "**Traits:** "@ + joined(traits, ", "@) + "\n\n"@
    }
}

/// The system prompt, verbatim, under its heading.
pub open spec fn system_prompt_text(a: AgentView) -> Seq<char> {
    "## System Prompt\n\n"@ + a.system_prompt + "\n\n"@
}

/// What one skill adds: its name, and its template if it is a prompt skill.
/// Tool and workflow skills add no body.
pub open spec fn skill_block(s: SkillView) -> Seq<char> {
    "### "@ + s.icon_emoji + " "@ + s.name + "\n"@ + match s.definition {
        SkillDefinitionView::Prompt { template } => template + "\n\n"@,
        SkillDefinitionView::Tool { .. } => Seq::empty(),
        SkillDefinitionView::Workflow { .. } => Seq::empty(),
    }
}

/// What one reference to a skill adds: the block of the first enabled skill
/// with that id, or nothing if there is none.
pub open spec fn skill_ref_text(skills: Seq<SkillView>, id: Seq<char>) -> Seq<char> {
    match enabled_skill(skills, id, 0) {
        Some(i) => skill_block(skills[i]),
        None => Seq::empty(),
    }
}

/// The blocks of the first `n` skill references, in listed order.
pub open spec fn skill_refs_text(skills: Seq<SkillView>, refs: Seq<Seq<char>>, n: nat) -> Seq<char>
    decreases n,
{
    if n == 0 {
        Seq::empty()
    } else {
        skill_refs_text(skills, refs, (n - 1) as nat) + skill_ref_text(skills, refs[n - 1])
    }
}

/// The section of attached skills. It is left out as a whole if it would
/// hold no skill: for an agent without skill references, and for one whose
/// references all point to skills that are missing or disabled.
pub open spec fn skills_section(a: AgentView, skills: Seq<SkillView>) -> Seq<char> {
    let body = skill_refs_text(skills, a.skills, a.skills.len());
    if body.len() == 0 {
        Seq::empty()
    } else {
        "## Attached Skills\n\n"@ + body
    }
}

/// What one attached instruction adds: its name and its content, verbatim.
pub open spec fn instruction_block(i: InstructionView) -> Seq<char> {
    "### "@ + i.icon_emoji + " "@ + i.name + "\n"@ + i.content + "\n\n"@
}

/// What one reference to an instruction adds: the block of the first enabled
/// instruction with that id, or nothing if there is none.
pub open spec fn instruction_ref_text(instructions: Seq<InstructionView>, id: Seq<char>) -> Seq<
    char,
> {
    match enabled_instruction(instructions, id, 0) {
        Some(i) => instruction_block(instructions[i]),
        None => Seq::empty(),
    }
}

/// The blocks of the first `n` instruction references, in listed order.
pub open spec fn instruction_refs_text(
    instructions: Seq<InstructionView>,
    refs: Seq<Seq<char>>,
    n: nat,
) -> Seq<char>
    decreases n,
{
    if n == 0 {
        Seq::empty()
    } else {
        instruction_refs_text(instructions, refs, (n - 1) as nat) + instruction_ref_text(
            instructions,
            refs[n - 1],
        )
    }
}

/// The section of attached instructions. It is left out as a whole if it
/// would hold no instruction: for an agent without instruction references,
/// and for one whose references all point to instructions that are missing
/// or disabled.
pub open spec fn instructions_section(a: AgentView, instructions: Seq<InstructionView>) -> Seq<
    char,
> {
    let body = instruction_refs_text(instructions, a.instructions, a.instructions.len());
    if body.len() == 0 {
        Seq::empty()
    } else {
        "## Attached Instructions\n\n"@ + body
    }
}

/// Whether an instruction is global for an agent: enabled, and not among the
/// agent's instruction references.
pub open spec fn is_global(a: AgentView, i: InstructionView) -> bool {
    i.enabled && !a.instructions.contains(i.id)
}

/// What one global instruction adds: its name, its category and its content.
pub open spec fn global_block(i: InstructionView) -> Seq<char> {
    "### "@ + i.icon_emoji + " "@ + i.name + " ("@ + category_text(i.category) + ")\n"@ + i.content
        + "\n\n"@
}

/// The blocks of the global instructions among the first `n` instructions,
/// in snapshot order.
pub open spec fn global_blocks(a: AgentView, instructions: Seq<InstructionView>, n: nat) -> Seq<
    char,
>
    decreases n,
{
    if n == 0 {
        Seq::empty()
    } else if is_global(a, instructions[n - 1]) {
        global_blocks(a, instructions, (n - 1) as nat) + global_block(instructions[n - 1])
    } else {
        global_blocks(a, instructions, (n - 1) as nat)
    }
}

/// Whether one of the first `n` instructions is global for the agent.
pub open spec fn any_global(a: AgentView, instructions: Seq<InstructionView>, n: nat) -> bool
    decreases n,
{
    if n == 0 {
        false
    } else {
        is_global(a, instructions[n - 1]) || any_global(a, instructions, (n - 1) as nat)
    }
}

/// The section of global instructions; nothing if there is none.
pub open spec fn global_section(a: AgentView, instructions: Seq<InstructionView>) -> Seq<char> {
    if any_global(a, instructions, instructions.len()) {
        "## Global Instructions\n\n"@ + global_blocks(a, instructions, instructions.len())
    } else {
        Seq::empty()
    }
}

/// The prompt composed for an agent over a snapshot of skills and
/// instructions.
pub open spec fn composed_prompt(
    a: AgentView,
    skills: Seq<SkillView>,
    instructions: Seq<InstructionView>,
) -> Seq<char> {
    header_text(a) + system_prompt_text(a) + skills_section(a, skills) + instructions_section(
        a,
        instructions,
    ) + global_section(a, instructions)
}

fn header(agent: &Agent) -> (r: String)
    ensures
        r@ == header_text(agent@),
{
    let mut r = String::from_str("# Agent Configuration\n\n");
    r.append("**Agent:** ");
    r.append(agent.avatar_emoji.as_str());
    r.append(" ");
    r.append(agent.name.as_str());
    r.append("\n\n");
    r.append("**Tone:** ");
    r.append(agent.personality.tone.as_str());
    r.append(" | **Verbosity:** ");
    r.append(agent.personality.verbosity.as_str());
    r.append("\n\n");
    if agent.personality.traits.len() > 0 {
        let mut t = String::from_str("**Traits:** ");
        let list = join(&agent.personality.traits, ", ");
        t.append(list.as_str());
        t.append("\n\n");
        r.append(t.as_str());
    }
    r
}

fn system_prompt(agent: &Agent) -> (r: String)
    ensures
        r@ == system_prompt_text(agent@),
{
    let mut r = String::from_str("## System Prompt\n\n");
    r.append(agent.system_prompt.as_str());
    r.append("\n\n");
    r
}

fn skill_text(skill: &Skill) -> (r: String)
    ensures
        r@ == skill_block(skill@),
{
    let mut r = String::from_str("### ");
    r.append(skill.icon_emoji.as_str());
    r.append(" ");
    r.append(skill.name.as_str());
    r.append("\n");
    match &skill.definition {
        SkillDefinition::Prompt { template } => {
            let mut body = String::new();
            body.append(template.as_str());
            body.append("\n\n");
            r.append(body.as_str());
        },
        SkillDefinition::Tool { .. } => {},
        SkillDefinition::Workflow { .. } => {},
    }
    r
}

fn attached_skills(agent: &Agent, skills: &Vec<Skill>) -> (r: String)
    ensures
        r@ == skills_section(agent@, skill_views(skills@)),
{
    let mut body = String::new();
    let mut k: usize = 0;
    while k < agent.skills.len()
        invariant
            k <= agent.skills.len(),
            body@ == skill_refs_text(skill_views(skills@), texts(agent.skills@), k as nat),
        decreases agent.skills.len() - k,
    {
        match find_enabled_skill(skills, agent.skills[k].as_str()) {
            Some(i) => {
                let block = skill_text(&skills[i]);
                body.append(block.as_str());
            },
            None => {},
        }
        k += 1;
    }
    if body.as_str().is_empty() {
        return body;
    }
    let mut r = String::from_str("## Attached Skills\n\n");
    r.append(body.as_str());
    r
}

fn instruction_text(instruction: &Instruction) -> (r: String)
    ensures
        r@ == instruction_block(instruction@),
{
    let mut r = String::from_str("### ");
    r.append(instruction.icon_emoji.as_str());
    r.append(" ");
    r.append(instruction.name.as_str());
    r.append("\n");
    r.append(instruction.content.as_str());
    r.append("\n\n");
    r
}

fn attached_instructions(agent: &Agent, instructions: &Vec<Instruction>) -> (r: String)
    ensures
        r@ == instructions_section(agent@, instruction_views(instructions@)),
{
    let mut body = String::new();
    let mut k: usize = 0;
    while k < agent.instructions.len()
        invariant
            k <= agent.instructions.len(),
            body@ == instruction_refs_text(
                instruction_views(instructions@),
                texts(agent.instructions@),
                k as nat,
            ),
        decreases agent.instructions.len() - k,
    {
        match find_enabled_instruction(instructions, agent.instructions[k].as_str()) {
            Some(i) => {
                let block = instruction_text(&instructions[i]);
                body.append(block.as_str());
            },
            None => {},
        }
        k += 1;
    }
    if body.as_str().is_empty() {
        return body;
    }
    let mut r = String::from_str("## Attached Instructions\n\n");
    r.append(body.as_str());
    r
}

fn global_text(instruction: &Instruction) -> (r: String)
    ensures
        r@ == global_block(instruction@),
{
    let mut r = String::from_str("### ");
    r.append(instruction.icon_emoji.as_str());
    r.append(" ");
    r.append(instruction.name.as_str());
    r.append(" (");
    r.append(category_to_string(&instruction.category));
    r.append(")\n");
    r.append(instruction.content.as_str());
    r.append("\n\n");
    r
}

fn global_instructions(agent: &Agent, instructions: &Vec<Instruction>) -> (r: String)
    ensures
        r@ == global_section(agent@, instruction_views(instructions@)),
{
    let mut body = String::new();
    let mut any = false;
    let mut k: usize = 0;
    while k < instructions.len()
        invariant
            k <= instructions.len(),
            body@ == global_blocks(agent@, instruction_views(instructions@), k as nat),
            any == any_global(agent@, instruction_views(instructions@), k as nat),
        decreases instructions.len() - k,
    {
        if instructions[k].enabled && !contains_text(
            &agent.instructions,
            instructions[k].id.as_str(),
        ) {
            let block = global_text(&instructions[k]);
            body.append(block.as_str());
            any = true;
        }
        k += 1;
    }
    if any {
        let mut r = String::from_str("## Global Instructions\n\n");
        r.append(body.as_str());
        r
    } else {
        String::new()
    }
}

/// Composes the prompt of `agent` over the given skills and instructions.
pub fn compose_prompt(agent: &Agent, skills: &Vec<Skill>, instructions: &Vec<Instruction>) -> (r:
    String)
    ensures
        r@ == composed_prompt(agent@, skill_views(skills@), instruction_views(instructions@)),
{
    let mut r = header(agent);
    let prompt = system_prompt(agent);
    r.append(prompt.as_str());
    let attached = attached_skills(agent, skills);
    r.append(attached.as_str());
    let guidance = attached_instructions(agent, instructions);
    r.append(guidance.as_str());
    let global = global_instructions(agent, instructions);
    r.append(global.as_str());
    r
}

// ---------------------------------------------------------------------------
// What holds of every composition
// ---------------------------------------------------------------------------

/// Composition is a function of the agent and the snapshot: two texts
/// composed for the same agent over the same snapshot are the same text.
pub proof fn lemma_composition_is_deterministic(
    first: Seq<char>,
    second: Seq<char>,
    a: AgentView,
    skills: Seq<SkillView>,
    instructions: Seq<InstructionView>,
)
    requires
        first == composed_prompt(a, skills, instructions),
        second == composed_prompt(a, skills, instructions),
    ensures
        first == second,
{
}

/// An instruction that the agent attaches is never global for it, so that
/// no instruction is shown both as attached and as global.
pub proof fn lemma_attached_is_not_global(a: AgentView, i: InstructionView, k: int)
    requires
        0 <= k < a.instructions.len(),
        a.instructions[k] == i.id,
    ensures
        !is_global(a, i),
{
}

/// A reference to a skill that is missing, or present only disabled, adds
/// nothing to the prompt.
pub proof fn lemma_unresolved_skill_adds_nothing(skills: Seq<SkillView>, id: Seq<char>)
    requires
        forall|i: int| 0 <= i < skills.len() ==> !((#[trigger] skills[i]).id == id && skills[i].enabled),
    ensures
        skill_ref_text(skills, id) == Seq::<char>::empty(),
{
    lemma_no_enabled_skill(skills, id, 0);
}

proof fn lemma_no_enabled_skill(skills: Seq<SkillView>, id: Seq<char>, from: int)
    requires
        0 <= from,
        forall|i: int| 0 <= i < skills.len() ==> !((#[trigger] skills[i]).id == id && skills[i].enabled),
    ensures
        enabled_skill(skills, id, from) is None,
    decreases skills.len() - from,
{
    if from < skills.len() {
        lemma_no_enabled_skill(skills, id, from + 1);
    }
}

/// A reference to an instruction that is missing, or present only disabled,
/// adds nothing to the prompt.
pub proof fn lemma_unresolved_instruction_adds_nothing(
    instructions: Seq<InstructionView>,
    id: Seq<char>,
)
    requires
        forall|i: int|
            0 <= i < instructions.len() ==> !((#[trigger] instructions[i]).id == id
                && instructions[i].enabled),
    ensures
        instruction_ref_text(instructions, id) == Seq::<char>::empty(),
{
    lemma_no_enabled_instruction(instructions, id, 0);
}

proof fn lemma_no_enabled_instruction(instructions: Seq<InstructionView>, id: Seq<char>, from: int)
    requires
        0 <= from,
        forall|i: int|
            0 <= i < instructions.len() ==> !((#[trigger] instructions[i]).id == id
                && instructions[i].enabled),
    ensures
        enabled_instruction(instructions, id, from) is None,
    decreases instructions.len() - from,
{
    if from < instructions.len() {
        lemma_no_enabled_instruction(instructions, id, from + 1);
    }
}

proof fn lemma_no_skill_ref_resolves(skills: Seq<SkillView>, refs: Seq<Seq<char>>, n: nat)
    requires
        n <= refs.len(),
        forall|r: int, i: int|
            0 <= r < refs.len() && 0 <= i < skills.len() ==> !((#[trigger] skills[i]).id
                == #[trigger] refs[r] && skills[i].enabled),
    ensures
        skill_refs_text(skills, refs, n) == Seq::<char>::empty(),
    decreases n,
{
    if n > 0 {
        lemma_no_skill_ref_resolves(skills, refs, (n - 1) as nat);
        lemma_unresolved_skill_adds_nothing(skills, refs[n - 1]);
    }
}

/// An agent whose skill references all point to skills that are missing or
/// disabled gets no section of attached skills, not even its heading.
pub proof fn lemma_skills_section_without_skill_is_omitted(a: AgentView, skills: Seq<SkillView>)
    requires
        forall|r: int, i: int|
            0 <= r < a.skills.len() && 0 <= i < skills.len() ==> !((#[trigger] skills[i]).id
                == #[trigger] a.skills[r] && skills[i].enabled),
    ensures
        skills_section(a, skills) == Seq::<char>::empty(),
{
    lemma_no_skill_ref_resolves(skills, a.skills, a.skills.len());
}

proof fn lemma_no_instruction_ref_resolves(
    instructions: Seq<InstructionView>,
    refs: Seq<Seq<char>>,
    n: nat,
)
    requires
        n <= refs.len(),
        forall|r: int, i: int|
            0 <= r < refs.len() && 0 <= i < instructions.len() ==> !((
            #[trigger] instructions[i]).id == #[trigger] refs[r] && instructions[i].enabled),
    ensures
        instruction_refs_text(instructions, refs, n) == Seq::<char>::empty(),
    decreases n,
{
    if n > 0 {
        lemma_no_instruction_ref_resolves(instructions, refs, (n - 1) as nat);
        lemma_unresolved_instruction_adds_nothing(instructions, refs[n - 1]);
    }
}

/// An agent whose instruction references all point to instructions that are
/// missing or disabled gets no section of attached instructions, not even
/// its heading.
pub proof fn lemma_instructions_section_without_instruction_is_omitted(
    a: AgentView,
    instructions: Seq<InstructionView>,
)
    requires
        forall|r: int, i: int|
            0 <= r < a.instructions.len() && 0 <= i < instructions.len() ==> !((
            #[trigger] instructions[i]).id == #[trigger] a.instructions[r]
                && instructions[i].enabled),
    ensures
        instructions_section(a, instructions) == Seq::<char>::empty(),
{
    lemma_no_instruction_ref_resolves(instructions, a.instructions, a.instructions.len());
}

/// Where a position moves to when the record at `k` is taken out.
pub open spec fn without(k: int, i: int) -> int {
    if i > k {
        i - 1
    } else {
        i
    }
}

proof fn lemma_skill_search_skips_disabled(skills: Seq<SkillView>, id: Seq<char>, k: int, from: int)
    requires
        0 <= k < skills.len(),
        !skills[k].enabled,
        0 <= from,
    ensures
        match enabled_skill(skills, id, from) {
            Some(i) => from <= i < skills.len() && i != k && enabled_skill(
                skills.remove(k),
                id,
                without(k, from),
            ) == Some(without(k, i)),
            None => enabled_skill(skills.remove(k), id, without(k, from)) is None,
        },
    decreases skills.len() - from,
{
    if from < skills.len() {
        lemma_skill_search_skips_disabled(skills, id, k, from + 1);
    }
}

proof fn lemma_skill_refs_skip_disabled(
    skills: Seq<SkillView>,
    refs: Seq<Seq<char>>,
    k: int,
    n: nat,
)
    requires
        0 <= k < skills.len(),
        !skills[k].enabled,
    ensures
        skill_refs_text(skills.remove(k), refs, n) == skill_refs_text(skills, refs, n),
    decreases n,
{
    if n > 0 {
        lemma_skill_refs_skip_disabled(skills, refs, k, (n - 1) as nat);
        lemma_skill_search_skips_disabled(skills, refs[n - 1], k, 0);
    }
}

/// A disabled skill has no part in any prompt: taking it out of the
/// snapshot changes no composed text, whether an agent refers to it or not.
pub proof fn lemma_disabled_skill_changes_nothing(
    a: AgentView,
    skills: Seq<SkillView>,
    instructions: Seq<InstructionView>,
    k: int,
)
    requires
        0 <= k < skills.len(),
        !skills[k].enabled,
    ensures
        composed_prompt(a, skills.remove(k), instructions) == composed_prompt(
            a,
            skills,
            instructions,
        ),
{
    lemma_skill_refs_skip_disabled(skills, a.skills, k, a.skills.len());
}

proof fn lemma_instruction_search_skips_disabled(
    instructions: Seq<InstructionView>,
    id: Seq<char>,
    k: int,
    from: int,
)
    requires
        0 <= k < instructions.len(),
        !instructions[k].enabled,
        0 <= from,
    ensures
        match enabled_instruction(instructions, id, from) {
            Some(i) => from <= i < instructions.len() && i != k && enabled_instruction(
                instructions.remove(k),
                id,
                without(k, from),
            ) == Some(without(k, i)),
            None => enabled_instruction(instructions.remove(k), id, without(k, from)) is None,
        },
    decreases instructions.len() - from,
{
    if from < instructions.len() {
        lemma_instruction_search_skips_disabled(instructions, id, k, from + 1);
    }
}

proof fn lemma_instruction_refs_skip_disabled(
    instructions: Seq<InstructionView>,
    refs: Seq<Seq<char>>,
    k: int,
    n: nat,
)
    requires
        0 <= k < instructions.len(),
        !instructions[k].enabled,
    ensures
        instruction_refs_text(instructions.remove(k), refs, n) == instruction_refs_text(
            instructions,
            refs,
            n,
        ),
    decreases n,
{
    if n > 0 {
        lemma_instruction_refs_skip_disabled(instructions, refs, k, (n - 1) as nat);
        lemma_instruction_search_skips_disabled(instructions, refs[n - 1], k, 0);
    }
}

proof fn lemma_global_skips_disabled(
    a: AgentView,
    instructions: Seq<InstructionView>,
    k: int,
    n: nat,
)
    requires
        0 <= k < instructions.len(),
        !instructions[k].enabled,
        n <= instructions.len(),
    ensures
        n <= k ==> global_blocks(a, instructions.remove(k), n) == global_blocks(a, instructions, n),
        n <= k ==> any_global(a, instructions.remove(k), n) == any_global(a, instructions, n),
        n > k ==> global_blocks(a, instructions.remove(k), (n - 1) as nat) == global_blocks(
            a,
            instructions,
            n,
        ),
        n > k ==> any_global(a, instructions.remove(k), (n - 1) as nat) == any_global(
            a,
            instructions,
            n,
        ),
    decreases n,
{
    if n > 0 {
        lemma_global_skips_disabled(a, instructions, k, (n - 1) as nat);
    }
}

/// A disabled instruction has no part in any prompt: taking it out of the
/// snapshot changes no composed text, whether an agent refers to it or not.
pub proof fn lemma_disabled_instruction_changes_nothing(
    a: AgentView,
    skills: Seq<SkillView>,
    instructions: Seq<InstructionView>,
    k: int,
)
    requires
        0 <= k < instructions.len(),
        !instructions[k].enabled,
    ensures
        composed_prompt(a, skills, instructions.remove(k)) == composed_prompt(
            a,
            skills,
            instructions,
        ),
{
    lemma_instruction_refs_skip_disabled(instructions, a.instructions, k, a.instructions.len());
    lemma_global_skips_disabled(a, instructions, k, instructions.len());
}

proof fn lemma_global_prefix(
    a: AgentView,
    instructions: Seq<InstructionView>,
    last: InstructionView,
    n: nat,
)
    requires
        n <= instructions.len(),
    ensures
        global_blocks(a, instructions.push(last), n) == global_blocks(a, instructions, n),
        any_global(a, instructions.push(last), n) == any_global(a, instructions, n),
    decreases n,
{
    if n > 0 {
        lemma_global_prefix(a, instructions, last, (n - 1) as nat);
    }
}

/// The global instructions follow the snapshot, not priority: an
/// instruction added at the end of the snapshot comes last among them,
/// whatever its priority is.
pub proof fn lemma_global_blocks_follow_snapshot(
    a: AgentView,
    instructions: Seq<InstructionView>,
    last: InstructionView,
)
    ensures
        global_blocks(a, instructions.push(last), instructions.len() + 1) == global_blocks(
            a,
            instructions,
            instructions.len(),
        ) + if is_global(a, last) {
            global_block(last)
        } else {
            Seq::empty()
        },
{
    lemma_global_prefix(a, instructions, last, instructions.len());
}

} // verus!
