//! The offer to install the dependencies anew: what the operator may choose, and
//! which command each choice runs.

use vstd::prelude::*;
use crate::text::same_text;

verus! {

/// The choice that runs `yarn`.
pub const CHOICE_YARN: &'static str = "yarn";

/// The choice that runs `npm install`.
pub const CHOICE_NPM: &'static str = "npm";

/// The choice that runs `cnpm install`.
pub const CHOICE_CNPM: &'static str = "cnpm";

/// The choice that runs nothing.
pub const CHOICE_NONE: &'static str = "Do not install";

/// The command behind [`CHOICE_NPM`].
pub const COMMAND_NPM: &'static str = "npm install";

/// The command behind [`CHOICE_CNPM`].
pub const COMMAND_CNPM: &'static str = "cnpm install";

/// What the operator is told where the command did not end well.
pub const INSTALL_FAILED: &'static str = "Command execution failed";

/// The choices, in the order in which they are offered.
pub open spec fn offered() -> Seq<Seq<char>> {
    seq![CHOICE_YARN@, CHOICE_NPM@, CHOICE_CNPM@, CHOICE_NONE@]
}

/// The command that a choice runs through the shell, if it runs one: `yarn` for
/// yarn, `npm install` for npm, `cnpm install` for cnpm, and none for anything else.
pub open spec fn command_for(choice: Seq<char>) -> Option<Seq<char>> {
    if choice == CHOICE_YARN@ {
        Some(CHOICE_YARN@)
    } else if choice == CHOICE_NPM@ {
        Some(COMMAND_NPM@)
    } else if choice == CHOICE_CNPM@ {
        Some(COMMAND_CNPM@)
    } else {
        None
    }
}

/// A command as characters, where there is one.
pub open spec fn command_view(command: Option<&'static str>) -> Option<Seq<char>> {
    match command {
        Some(line) => Some(line@),
        None => None,
    }
}

/// The choices to offer, in order; exactly one of them is to be picked.
pub fn install_choices() -> (choices: Vec<&'static str>)
    ensures
        choices@.len() == offered().len(),
        forall|i: int| 0 <= i < choices@.len() ==> (#[trigger] choices@[i])@ == offered()[i],
{
    let mut choices: Vec<&'static str> = Vec::new();
    choices.push(CHOICE_YARN);
    choices.push(CHOICE_NPM);
    choices.push(CHOICE_CNPM);
    choices.push(CHOICE_NONE);
    choices
}

/// The shell command for the operator's choice, or none where nothing is to be run.
pub fn install_nodemodules(choice: &str) -> (command: Option<&'static str>)
    ensures
        command_view(command) == command_for(choice@),
{
    if same_text(choice, CHOICE_YARN) {
        Some(CHOICE_YARN)
    } else if same_text(choice, CHOICE_NPM) {
        Some(COMMAND_NPM)
    } else if same_text(choice, CHOICE_CNPM) {
        Some(COMMAND_CNPM)
    } else {
        None
    }
}

/// What is reported once the command has ended: nothing where it ended well, and
/// [`INSTALL_FAILED`] otherwise. Either way the run goes on.
pub fn install_report(succeeded: bool) -> (report: Option<&'static str>)
    ensures
        succeeded <==> report is None,
        !succeeded ==> report == Some(INSTALL_FAILED),
{
    if succeeded {
        None
    } else {
        Some(INSTALL_FAILED)
    }
}

/// Of the choices offered, the last runs nothing and each of the others runs a command.
pub proof fn lemma_offered_commands()
    ensures
        forall|i: int| 0 <= i < 3 ==> (#[trigger] command_for(offered()[i])) is Some,
        command_for(offered()[3]) is None,
        offered().len() == 4,
{
    reveal_strlit("yarn");
    reveal_strlit("npm");
    reveal_strlit("cnpm");
    reveal_strlit("Do not install");
    assert(CHOICE_NONE@.len() == 14);
    assert(CHOICE_YARN@.len() == 4);
    assert(CHOICE_NPM@.len() == 3);
    assert(CHOICE_CNPM@.len() == 4);
}

} // verus!
