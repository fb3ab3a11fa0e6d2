//! Moving the folder aside and linking it back: what is done, given what is on disk.

use vstd::prelude::*;
use crate::paths::{
    child_path, is_rooted, nosync_of, wants_separator, Targets, DEFAULT_FOLDER, NOSYNC_SUFFIX,
};
use crate::text::{contains, has_substring, lemma_found_between, lemma_substring_survives};

verus! {

/// How the exempt directory comes to exist.
#[derive(Clone, Copy, Debug, PartialEq, Eq, Structural)]
pub enum Relocation {
    /// It exists already: nothing is moved and nothing is created.
    Keep,
    /// The folder is renamed to it.
    Rename,
    /// Neither exists: it is created empty, with any missing parents.
    Create,
}

/// The relocation for what is on disk: an exempt directory that exists is kept;
/// failing that, a folder that exists is renamed; failing both, the exempt
/// directory is created.
pub open spec fn relocation_for(original_exists: bool, nosync_exists: bool) -> Relocation {
    if nosync_exists {
        Relocation::Keep
    } else if original_exists {
        Relocation::Rename
    } else {
        Relocation::Create
    }
}

/// Decides how the exempt directory comes to exist.
pub fn create_nosync_folder(original_exists: bool, nosync_exists: bool) -> (plan: Relocation)
    ensures
        plan == relocation_for(original_exists, nosync_exists),
        nosync_exists ==> plan == Relocation::Keep,
        plan == Relocation::Rename ==> original_exists,
{
    if nosync_exists {
        Relocation::Keep
    } else if original_exists {
        Relocation::Rename
    } else {
        Relocation::Create
    }
}

/// What is done around the link from the folder's path to the exempt directory.
/// The link itself is always made, after the clearing and before the reinstall.
#[derive(Clone, Copy, Debug, PartialEq, Eq, Structural)]
pub struct LinkPlan {
    /// Whether what still stands at the folder's path is removed first, with all below it.
    pub clear_original: bool,
    /// Whether the operator is then offered to install the dependencies anew.
    pub offer_reinstall: bool,
}

/// Whether a link to `nosync_path` is followed by the offer to reinstall: where
/// the path holds the name of the dependency folder.
pub open spec fn reinstall_offered(nosync_path: Seq<char>) -> bool {
    has_substring(nosync_path, DEFAULT_FOLDER@)
}

/// Decides what surrounds the making of the link, given whether anything still
/// stands at the folder's path.
pub fn create_symlink(targets: &Targets, original_exists: bool) -> (plan: LinkPlan)
    ensures
        plan.clear_original == original_exists,
        plan.offer_reinstall == reinstall_offered(targets.nosync_path()),
{
    LinkPlan {
        clear_original: original_exists,
        offer_reinstall: contains(targets.nosync(), DEFAULT_FOLDER),
    }
}

/// A folder whose name holds the name of the dependency folder has the reinstall
/// offered, whatever the working directory.
pub proof fn lemma_folder_offers_reinstall(cwd: Seq<char>, folder: Seq<char>)
    requires
        has_substring(folder, DEFAULT_FOLDER@),
    ensures
        reinstall_offered(nosync_of(child_path(cwd, folder))),
{
    if is_rooted(folder) {
    } else if wants_separator(cwd) {
        lemma_substring_survives(folder, cwd + seq!['/'], DEFAULT_FOLDER@);
    } else {
        lemma_substring_survives(folder, cwd, DEFAULT_FOLDER@);
    }
    lemma_substring_survives(child_path(cwd, folder), NOSYNC_SUFFIX@, DEFAULT_FOLDER@);
}

/// The default folder has the reinstall offered, whatever the working directory.
pub proof fn lemma_default_offers_reinstall(cwd: Seq<char>)
    ensures
        reinstall_offered(nosync_of(child_path(cwd, DEFAULT_FOLDER@))),
{
    lemma_found_between(Seq::empty(), DEFAULT_FOLDER@, Seq::empty());
    assert(Seq::<char>::empty() + DEFAULT_FOLDER@ + Seq::<char>::empty() =~= DEFAULT_FOLDER@);
    lemma_folder_offers_reinstall(cwd, DEFAULT_FOLDER@);
}

/// Below a working directory whose path holds the name of the dependency folder,
/// a folder of any name that is not rooted has the reinstall offered.
pub proof fn lemma_directory_offers_reinstall(cwd: Seq<char>, folder: Seq<char>)
    requires
        has_substring(cwd, DEFAULT_FOLDER@),
        !is_rooted(folder),
    ensures
        reinstall_offered(nosync_of(child_path(cwd, folder))),
{
    if wants_separator(cwd) {
        lemma_substring_survives(cwd, seq!['/'], DEFAULT_FOLDER@);
        lemma_substring_survives(cwd + seq!['/'], folder, DEFAULT_FOLDER@);
    } else {
        lemma_substring_survives(cwd, folder, DEFAULT_FOLDER@);
    }
    lemma_substring_survives(child_path(cwd, folder), NOSYNC_SUFFIX@, DEFAULT_FOLDER@);
}

} // verus!
