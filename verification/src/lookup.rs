//! Finding records in a snapshot.
//!
//! Agents and skills are looked up by id first and by name second. Names are
//! compared without regard to case; skill names also with spaces and
//! underscores read as hyphens. Where several records fit, the first in
//! snapshot order is taken.

use vstd::prelude::*;

use crate::models::agent_views;
use crate::models::instruction_views;
use crate::models::skill_views;
use crate::models::Agent;
use crate::models::AgentView;
use crate::models::Instruction;
use crate::models::InstructionView;
use crate::models::Skill;
use crate::models::SkillView;
use crate::text::lowercase;
use crate::text::normalize_skill_name;
use crate::text::skill_key;
use crate::text::str_eq;
use crate::text::texts;
use crate::text::to_lowercase;

verus! {

/// The first agent at or after `from` whose id is `id`.
pub open spec fn agent_by_id(agents: Seq<AgentView>, id: Seq<char>, from: int) -> Option<int>
    decreases agents.len() - from,
{
    if from < 0 || from >= agents.len() {
        None
    } else if agents[from].id == id {
        Some(from)
    } else {
        agent_by_id(agents, id, from + 1)
    }
}

/// The first text at or after `from` that equals `key`.
pub open spec fn first_equal(list: Seq<Seq<char>>, key: Seq<char>, from: int) -> Option<int>
    decreases list.len() - from,
{
    if from < 0 || from >= list.len() {
        None
    } else if list[from] == key {
        Some(from)
    } else {
        first_equal(list, key, from + 1)
    }
}

/// What the agents are compared by when looked up by name: their names in
/// lower case.
pub open spec fn agent_keys(agents: Seq<AgentView>) -> Seq<Seq<char>> {
    agents.map_values(|a: AgentView| lowercase(a.name))
}

/// The first agent at or after `from` whose lower-cased name is `lower`.
pub open spec fn agent_by_name(agents: Seq<AgentView>, lower: Seq<char>, from: int) -> Option<int> {
    first_equal(agent_keys(agents), lower, from)
}

/// The agent that `key` names: the first with that id, or else the first
/// whose name equals `key` when case is ignored.
pub open spec fn resolve_agent(agents: Seq<AgentView>, key: Seq<char>) -> Option<int> {
    match agent_by_id(agents, key, 0) {
        Some(i) => Some(i),
        None => agent_by_name(agents, lowercase(key), 0),
    }
}

/// The first enabled skill at or after `from` whose id is `id`.
pub open spec fn enabled_skill(skills: Seq<SkillView>, id: Seq<char>, from: int) -> Option<int>
    decreases skills.len() - from,
{
    if from < 0 || from >= skills.len() {
        None
    } else if skills[from].id == id && skills[from].enabled {
        Some(from)
    } else {
        enabled_skill(skills, id, from + 1)
    }
}

/// The first enabled instruction at or after `from` whose id is `id`.
pub open spec fn enabled_instruction(
    instructions: Seq<InstructionView>,
    id: Seq<char>,
    from: int,
) -> Option<int>
    decreases instructions.len() - from,
{
    if from < 0 || from >= instructions.len() {
        None
    } else if instructions[from].id == id && instructions[from].enabled {
        Some(from)
    } else {
        enabled_instruction(instructions, id, from + 1)
    }
}

/// The first agent with the given id.
pub fn find_agent_by_id(agents: &Vec<Agent>, id: &str) -> (r: Option<usize>)
    ensures
        match r {
            Some(i) => i < agents.len() && agent_by_id(agent_views(agents@), id@, 0) == Some(
                i as int,
            ),
            None => agent_by_id(agent_views(agents@), id@, 0) is None,
        },
{
    let mut i: usize = 0;
    while i < agents.len()
        invariant
            i <= agents.len(),
            agent_by_id(agent_views(agents@), id@, 0) == agent_by_id(
                agent_views(agents@),
                id@,
                i as int,
            ),
        decreases agents.len() - i,
    {
        if str_eq(agents[i].id.as_str(), id) {
            return Some(i);
        }
        i += 1;
    }
    None
}

/// The position of the first text that equals `key`.
pub fn position_of(list: &Vec<String>, key: &str) -> (r: Option<usize>)
    ensures
        match r {
            Some(i) => i < list.len() && first_equal(texts(list@), key@, 0) == Some(i as int),
            None => first_equal(texts(list@), key@, 0) is None,
        },
{
    let mut i: usize = 0;
    while i < list.len()
        invariant
            i <= list.len(),
            first_equal(texts(list@), key@, 0) == first_equal(texts(list@), key@, i as int),
        decreases list.len() - i,
    {
        if str_eq(list[i].as_str(), key) {
            return Some(i);
        }
        i += 1;
    }
    None
}

/// The first agent whose name in lower case is `lower`.
pub fn find_agent_by_name(agents: &Vec<Agent>, lower: &str) -> (r: Option<usize>)
    ensures
        match r {
            Some(i) => i < agents.len() && agent_by_name(agent_views(agents@), lower@, 0) == Some(
                i as int,
            ),
            None => agent_by_name(agent_views(agents@), lower@, 0) is None,
        },
{
    let mut names: Vec<String> = Vec::new();
    let mut i: usize = 0;
    while i < agents.len()
        invariant
            i <= agents.len(),
            names@.len() == i,
            forall|k: int| 0 <= k < i ==> (#[trigger] names@[k])@ == lowercase(agents@[k]@.name),
        decreases agents.len() - i,
    {
        names.push(to_lowercase(agents[i].name.as_str()));
        i += 1;
    }
    assert(texts(names@) =~= agent_keys(agent_views(agents@)));
    position_of(&names, lower)
}

/// Looks an agent up by id, then by name without regard to case.
pub fn find_agent(agents: &Vec<Agent>, key: &str) -> (r: Option<usize>)
    ensures
        match r {
            Some(i) => i < agents.len() && resolve_agent(agent_views(agents@), key@) == Some(
                i as int,
            ),
            None => resolve_agent(agent_views(agents@), key@) is None,
        },
{
    match find_agent_by_id(agents, key) {
        Some(i) => Some(i),
        None => {
            let lower = to_lowercase(key);
            find_agent_by_name(agents, lower.as_str())
        },
    }
}

/// The first enabled skill with the given id.
pub fn find_enabled_skill(skills: &Vec<Skill>, id: &str) -> (r: Option<usize>)
    ensures
        match r {
            Some(i) => i < skills.len() && enabled_skill(skill_views(skills@), id@, 0) == Some(
                i as int,
            ),
            None => enabled_skill(skill_views(skills@), id@, 0) is None,
        },
{
    let mut i: usize = 0;
    while i < skills.len()
        invariant
            i <= skills.len(),
            enabled_skill(skill_views(skills@), id@, 0) == enabled_skill(
                skill_views(skills@),
                id@,
                i as int,
            ),
        decreases skills.len() - i,
    {
        if skills[i].enabled && str_eq(skills[i].id.as_str(), id) {
            return Some(i);
        }
        i += 1;
    }
    None
}

/// The first enabled instruction with the given id.
pub fn find_enabled_instruction(instructions: &Vec<Instruction>, id: &str) -> (r: Option<usize>)
    ensures
        match r {
            Some(i) => i < instructions.len() && enabled_instruction(
                instruction_views(instructions@),
                id@,
                0,
            ) == Some(i as int),
            None => enabled_instruction(instruction_views(instructions@), id@, 0) is None,
        },
{
    let mut i: usize = 0;
    while i < instructions.len()
        invariant
            i <= instructions.len(),
            enabled_instruction(instruction_views(instructions@), id@, 0) == enabled_instruction(
                instruction_views(instructions@),
                id@,
                i as int,
            ),
        decreases instructions.len() - i,
    {
        if instructions[i].enabled && str_eq(instructions[i].id.as_str(), id) {
            return Some(i);
        }
        i += 1;
    }
    None
}

/// Whether `s` is one of the texts of `list`.
pub fn contains_text(list: &Vec<String>, s: &str) -> (r: bool)
    ensures
        r == texts(list@).contains(s@),
{
    let mut i: usize = 0;
    while i < list.len()
        invariant
            i <= list.len(),
            forall|k: int| 0 <= k < i ==> texts(list@)[k] != s@,
        decreases list.len() - i,
    {
        if str_eq(list[i].as_str(), s) {
            assert(texts(list@)[i as int] == s@);
            return true;
        }
        i += 1;
    }
    false
}

/// The first skill at or after `from` whose id is `id`, enabled or not.
pub open spec fn skill_by_id(skills: Seq<SkillView>, id: Seq<char>, from: int) -> Option<int>
    decreases skills.len() - from,
{
    if from < 0 || from >= skills.len() {
        None
    } else if skills[from].id == id {
        Some(from)
    } else {
        skill_by_id(skills, id, from + 1)
    }
}

/// What the skills are compared by when looked up by name: their
/// normalised names.
pub open spec fn skill_keys(skills: Seq<SkillView>) -> Seq<Seq<char>> {
    skills.map_values(|s: SkillView| skill_key(s.name))
}

/// The first skill at or after `from` whose normalised name is `key`.
pub open spec fn skill_by_name(skills: Seq<SkillView>, key: Seq<char>, from: int) -> Option<int> {
    first_equal(skill_keys(skills), key, from)
}

/// The skill that `key` names: the first with that id, or else the first
/// whose normalised name equals the normalised `key`.
pub open spec fn resolve_skill(skills: Seq<SkillView>, key: Seq<char>) -> Option<int> {
    match skill_by_id(skills, key, 0) {
        Some(i) => Some(i),
        None => skill_by_name(skills, skill_key(key), 0),
    }
}

/// The first skill with the given id, enabled or not.
pub fn find_skill_by_id(skills: &Vec<Skill>, id: &str) -> (r: Option<usize>)
    ensures
        match r {
            Some(i) => i < skills.len() && skill_by_id(skill_views(skills@), id@, 0) == Some(
                i as int,
            ),
            None => skill_by_id(skill_views(skills@), id@, 0) is None,
        },
{
    let mut i: usize = 0;
    while i < skills.len()
        invariant
            i <= skills.len(),
            skill_by_id(skill_views(skills@), id@, 0) == skill_by_id(
                skill_views(skills@),
                id@,
                i as int,
            ),
        decreases skills.len() - i,
    {
        if str_eq(skills[i].id.as_str(), id) {
            return Some(i);
        }
        i += 1;
    }
    None
}

/// The first skill whose normalised name is `key`.
pub fn find_skill_by_name(skills: &Vec<Skill>, key: &str) -> (r: Option<usize>)
    ensures
        match r {
            Some(i) => i < skills.len() && skill_by_name(skill_views(skills@), key@, 0) == Some(
                i as int,
            ),
            None => skill_by_name(skill_views(skills@), key@, 0) is None,
        },
{
    let mut names: Vec<String> = Vec::new();
    let mut i: usize = 0;
    while i < skills.len()
        invariant
            i <= skills.len(),
            names@.len() == i,
            forall|k: int| 0 <= k < i ==> (#[trigger] names@[k])@ == skill_key(skills@[k]@.name),
        decreases skills.len() - i,
    {
        names.push(normalize_skill_name(skills[i].name.as_str()));
        i += 1;
    }
    assert(texts(names@) =~= skill_keys(skill_views(skills@)));
    position_of(&names, key)
}

/// Looks a skill up by id, then by normalised name.
pub fn find_skill(skills: &Vec<Skill>, key: &str) -> (r: Option<usize>)
    ensures
        match r {
            Some(i) => i < skills.len() && resolve_skill(skill_views(skills@), key@) == Some(
                i as int,
            ),
            None => resolve_skill(skill_views(skills@), key@) is None,
        },
{
    match find_skill_by_id(skills, key) {
        Some(i) => Some(i),
        None => {
            let wanted = normalize_skill_name(key);
            find_skill_by_name(skills, wanted.as_str())
        },
    }
}

} // verus!
