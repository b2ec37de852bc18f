use vstd::prelude::*;

verus! {

/// The four declaration kinds handled by the CLI.
#[derive(Debug, Clone, Copy, PartialEq, Eq, Structural, Hash)]
pub enum EntityKind {
    Assistant,
    Workflow,
    Skill,
    Datasource,
}

/// The exact `kind` spelling of each declaration kind.
pub open spec fn kind_text(kind: EntityKind) -> Seq<char> {
    match kind {
        EntityKind::Assistant => "Assistant"@,
        EntityKind::Workflow => "Workflow"@,
        EntityKind::Skill => "Skill"@,
        EntityKind::Datasource => "Datasource"@,
    }
}

impl EntityKind {
    /// The schema spelling of the kind.
    pub fn as_str(self) -> (text: &'static str)
        ensures
            text@ == kind_text(self),
    {
        match self {
            EntityKind::Assistant => "Assistant",
            EntityKind::Workflow => "Workflow",
            EntityKind::Skill => "Skill",
            EntityKind::Datasource => "Datasource",
        }
    }
}

} // verus!
