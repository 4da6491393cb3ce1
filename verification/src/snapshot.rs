//! The snapshot store: the records the server answers from.
//!
//! A snapshot is replaced as a whole and never changed in place, so that a
//! handler sees either the records from before a reload or those from after
//! it, never a mix.

use vstd::prelude::*;

use crate::models::agent_views;
use crate::models::instruction_views;
use crate::models::skill_views;
use crate::models::Agent;
use crate::models::AgentView;
use crate::models::Instruction;
use crate::models::InstructionView;
use crate::models::Skill;
use crate::models::SkillView;

verus! {

/// One consistent set of records, each list in declaration order.
#[derive(Debug)]
pub struct Snapshot {
    pub agents: Vec<Agent>,
    pub skills: Vec<Skill>,
    pub instructions: Vec<Instruction>,
}

/// The view of a snapshot.
pub struct SnapshotView {
    pub agents: Seq<AgentView>,
    pub skills: Seq<SkillView>,
    pub instructions: Seq<InstructionView>,
}

impl View for Snapshot {
    type V = SnapshotView;

    open spec fn view(&self) -> SnapshotView {
        SnapshotView {
            agents: agent_views(self.agents@),
            skills: skill_views(self.skills@),
            instructions: instruction_views(self.instructions@),
        }
    }
}

/// The snapshot without records.
pub open spec fn empty_snapshot() -> SnapshotView {
    SnapshotView { agents: Seq::empty(), skills: Seq::empty(), instructions: Seq::empty() }
}

impl Snapshot {
    /// A snapshot without records.
    pub fn new() -> (r: Snapshot)
        ensures
            r@ == empty_snapshot(),
    {
        let r = Snapshot { agents: Vec::new(), skills: Vec::new(), instructions: Vec::new() };
        assert(r@.agents =~= Seq::empty());
        assert(r@.skills =~= Seq::empty());
        assert(r@.instructions =~= Seq::empty());
        r
    }
}

/// The server: the snapshot it currently answers from.
pub struct McpServer {
    snapshot: Snapshot,
}

impl View for McpServer {
    type V = SnapshotView;

    closed spec fn view(&self) -> SnapshotView {
        self.snapshot@
    }
}

impl McpServer {
    /// A server with an empty snapshot.
    pub fn new() -> (r: McpServer)
        ensures
            r@ == empty_snapshot(),
    {
        McpServer { snapshot: Snapshot::new() }
    }

    /// Replaces the snapshot as a whole.
    pub fn load_data(&mut self, snapshot: Snapshot)
        ensures
            final(self)@ == snapshot@,
    {
        self.snapshot = snapshot;
    }

    /// The snapshot the server currently answers from.
    pub fn snapshot(&self) -> (r: &Snapshot)
        ensures
            r@ == self@,
    {
        &self.snapshot
    }
}

} // verus!
