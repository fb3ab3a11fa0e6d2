//! One run from its finding to its exit: which stages follow, in which order, and
//! how the process ends.

use vstd::prelude::*;

verus! {

/// The exit status of a run that went through.
pub const EXIT_DONE: i32 = 0;

/// The exit status of a run that found the directory not synced and was not overruled.
pub const EXIT_NOT_SYNCED: i32 = 1;

/// A stage of a run that works on the disk.
#[derive(Clone, Copy, Debug, PartialEq, Eq, Structural)]
pub enum Stage {
    /// The exempt directory is brought about.
    Relocate,
    /// The folder's path is linked to it.
    Link,
    /// The ignore file is brought up to date.
    Ignore,
}

/// The stages that follow a finding, in order: none where the directory does not
/// count as synced; otherwise relocation, then the link, then the ignore file
/// unless that is skipped.
pub open spec fn stages_for(synced: bool, skip_git: bool) -> Seq<Stage> {
    if !synced {
        seq![]
    } else if skip_git {
        seq![Stage::Relocate, Stage::Link]
    } else {
        seq![Stage::Relocate, Stage::Link, Stage::Ignore]
    }
}

/// The stages to carry out after the finding `synced`, in order. Each is only
/// begun once the one before it has succeeded.
pub fn stages(synced: bool, skip_git: bool) -> (plan: Vec<Stage>)
    ensures
        plan@ == stages_for(synced, skip_git),
        !synced ==> plan@.len() == 0,
{
    let mut plan: Vec<Stage> = Vec::new();
    if synced {
        plan.push(Stage::Relocate);
        plan.push(Stage::Link);
        if !skip_git {
            plan.push(Stage::Ignore);
        }
    }
    plan
}

/// The status with which the process ends once the stages that follow the finding
/// are through: [`EXIT_DONE`] where the directory counted as synced, and
/// [`EXIT_NOT_SYNCED`] where it did not.
pub fn exit_status(synced: bool) -> (status: i32)
    ensures
        status == if synced {
            EXIT_DONE
        } else {
            EXIT_NOT_SYNCED
        },
        status == 0 <==> synced,
{
    if synced {
        EXIT_DONE
    } else {
        EXIT_NOT_SYNCED
    }
}

} // verus!
