//! The ignore file: which lines a name adds to it, and when it adds none.

use vstd::prelude::*;
use vstd::string::*;
use crate::paths::{nosync_of, NOSYNC_SUFFIX};
use crate::text::{
    contains, found_at, has_substring, lemma_found_between, lemma_substring_survives,
};

verus! {

/// The ignore file's name, inside the working directory.
pub const IGNORE_FILE: &'static str = ".gitignore";

/// What opens an entry: an empty line, then the comment that marks it.
pub const ENTRY_HEADER: &'static str = "\n# no-sync\n";

/// What closes an entry behind the name: the glob star and the end of the line.
pub const ENTRY_TAIL: &'static str = "*\n";

/// What becomes of the ignore file for one name.
#[derive(Debug, PartialEq, Eq)]
pub enum IgnoreUpdate {
    /// The file already holds the name; nothing is written.
    AlreadyPresent,
    /// The file gains this text at its end.
    Append(String),
}

/// An [`IgnoreUpdate`] over sequences of characters.
pub enum IgnoreChange {
    /// Nothing is written.
    AlreadyPresent,
    /// These characters are written at the end.
    Append(Seq<char>),
}

impl View for IgnoreUpdate {
    type V = IgnoreChange;

    open spec fn view(&self) -> IgnoreChange {
        match self {
            IgnoreUpdate::AlreadyPresent => IgnoreChange::AlreadyPresent,
            IgnoreUpdate::Append(lines) => IgnoreChange::Append(lines@),
        }
    }
}

/// The entry for `name`: the comment line, then the pattern `name*` on a line of its own.
pub open spec fn entry_for(name: Seq<char>) -> Seq<char> {
    ENTRY_HEADER@ + name + ENTRY_TAIL@
}

/// The change that `name` asks of a file that holds `content`: none where the name
/// already stands anywhere in it, its entry otherwise.
pub open spec fn change_for(content: Seq<char>, name: Seq<char>) -> IgnoreChange {
    if has_substring(content, name) {
        IgnoreChange::AlreadyPresent
    } else {
        IgnoreChange::Append(entry_for(name))
    }
}

/// What the file holds once the change that `name` asks for is written.
pub open spec fn content_after(content: Seq<char>, name: Seq<char>) -> Seq<char> {
    match change_for(content, name) {
        IgnoreChange::AlreadyPresent => content,
        IgnoreChange::Append(lines) => content + lines,
    }
}

/// What the file holds once it is updated for a folder: for the folder's own
/// name first, then for the name with the suffix behind it.
pub open spec fn content_after_run(content: Seq<char>, folder: Seq<char>) -> Seq<char> {
    content_after(content_after(content, folder), nosync_of(folder))
}

/// The names that the ignore file is updated for, in order: the folder's own,
/// then the folder's with the suffix behind it.
pub fn ignore_names(folder: &str) -> (names: Vec<String>)
    ensures
        names@.len() == 2,
        names@[0]@ == folder@,
        names@[1]@ == nosync_of(folder@),
{
    let plain = String::from_str(folder);
    let mut suffixed = String::from_str(folder);
    suffixed.append(NOSYNC_SUFFIX);
    let mut names: Vec<String> = Vec::new();
    names.push(plain);
    names.push(suffixed);
    names
}

/// Decides what `name` adds to an ignore file that holds `content`; a file that
/// does not exist holds nothing.
pub fn add_gitignore(content: &str, name: &str) -> (update: IgnoreUpdate)
    ensures
        update@ == change_for(content@, name@),
        has_substring(content@, name@) <==> update is AlreadyPresent,
{
    if contains(content, name) {
        IgnoreUpdate::AlreadyPresent
    } else {
        let mut lines = String::from_str(ENTRY_HEADER);
        lines.append(name);
        lines.append(ENTRY_TAIL);
        IgnoreUpdate::Append(lines)
    }
}

/// Once a name's change is written, the file holds the name.
pub proof fn lemma_name_present_after(content: Seq<char>, name: Seq<char>)
    ensures
        has_substring(content_after(content, name), name),
{
    if !has_substring(content, name) {
        lemma_found_between(content + ENTRY_HEADER@, name, ENTRY_TAIL@);
        assert(content + ENTRY_HEADER@ + name + ENTRY_TAIL@ =~= content + entry_for(name));
    }
}

/// Updating twice for one name leaves the file as updating once does: the second
/// update finds the name and writes nothing.
pub proof fn lemma_update_idempotent(content: Seq<char>, name: Seq<char>)
    ensures
        change_for(content_after(content, name), name) == IgnoreChange::AlreadyPresent,
        content_after(content_after(content, name), name) == content_after(content, name),
{
    lemma_name_present_after(content, name);
}

/// An update only writes behind what is there: the file begins as it did before.
pub proof fn lemma_update_extends(content: Seq<char>, name: Seq<char>)
    ensures
        content.len() <= content_after(content, name).len(),
        content_after(content, name).subrange(0, content.len() as int) == content,
{
    assert(content_after(content, name).subrange(0, content.len() as int) =~= content);
}

/// What the file held before an update, it still holds after it.
pub proof fn lemma_update_keeps(content: Seq<char>, name: Seq<char>, held: Seq<char>)
    requires
        has_substring(content, held),
    ensures
        has_substring(content_after(content, name), held),
{
    if !has_substring(content, name) {
        lemma_substring_survives(content, entry_for(name), held);
    }
}

/// After the updates for two names, one after the other, the file holds both.
pub proof fn lemma_both_present(content: Seq<char>, first: Seq<char>, second: Seq<char>)
    ensures
        has_substring(content_after(content_after(content, first), second), first),
        has_substring(content_after(content_after(content, first), second), second),
{
    lemma_name_present_after(content, first);
    lemma_update_keeps(content_after(content, first), second, first);
    lemma_name_present_after(content_after(content, first), second);
}

/// Where the suffixed name stood in the plain entry, no character of the folder's
/// name could be a dot: each would repeat one of the header or an earlier one of
/// the name.
proof fn lemma_overlap_has_no_dot(folder: Seq<char>, at: int, i: int)
    requires
        found_at(entry_for(folder), nosync_of(folder), at),
        0 <= i < folder.len(),
    ensures
        folder[i] != '.',
    decreases i,
{
    reveal_strlit("\n# no-sync\n");
    reveal_strlit("*\n");
    reveal_strlit(".nosync");
    let text = entry_for(folder);
    let pattern = nosync_of(folder);
    assert(text.subrange(at, at + pattern.len())[i] == pattern[i]);
    assert(text[at + i] == folder[i]);
    if at + i < ENTRY_HEADER@.len() {
        assert(text[at + i] == ENTRY_HEADER@[at + i]);
    } else {
        let earlier = at + i - ENTRY_HEADER@.len();
        lemma_overlap_has_no_dot(folder, at, earlier);
        assert(text[at + i] == folder[earlier]);
    }
}

/// The entry of a folder's own name never holds the name with the suffix behind
/// it: the plain entry is not taken for the suffixed one.
pub proof fn lemma_entry_lacks_suffixed(folder: Seq<char>)
    ensures
        !has_substring(entry_for(folder), nosync_of(folder)),
{
    reveal_strlit("\n# no-sync\n");
    reveal_strlit("*\n");
    reveal_strlit(".nosync");
    let text = entry_for(folder);
    let pattern = nosync_of(folder);
    assert forall|at: int| !found_at(text, pattern, at) by {
        if found_at(text, pattern, at) {
            let dot = at + folder.len();
            assert(text.subrange(at, at + pattern.len())[folder.len() as int] == pattern[folder.len() as int]);
            assert(text[dot] == '.');
            if dot < ENTRY_HEADER@.len() {
                assert(text[dot] == ENTRY_HEADER@[dot]);
            } else {
                let earlier = dot - ENTRY_HEADER@.len();
                lemma_overlap_has_no_dot(folder, at, earlier);
                assert(text[dot] == folder[earlier]);
            }
        }
    }
}

/// A file that held nothing ends up, for a folder with a name, with exactly the
/// two entries: the plain one, then the suffixed one.
pub proof fn lemma_fresh_file(folder: Seq<char>)
    requires
        folder.len() > 0,
    ensures
        content_after_run(Seq::empty(), folder) == entry_for(folder) + entry_for(
            nosync_of(folder),
        ),
{
    let empty = Seq::<char>::empty();
    assert forall|at: int| !found_at(empty, folder, at) by {}
    assert(content_after(empty, folder) =~= entry_for(folder));
    lemma_entry_lacks_suffixed(folder);
}

/// Updating a file for a folder a second time changes nothing: both names are
/// found, and the file stays as the first update left it.
pub proof fn lemma_run_idempotent(content: Seq<char>, folder: Seq<char>)
    ensures
        has_substring(content_after_run(content, folder), folder),
        has_substring(content_after_run(content, folder), nosync_of(folder)),
        content_after_run(content_after_run(content, folder), folder) == content_after_run(
            content,
            folder,
        ),
{
    lemma_both_present(content, folder, nosync_of(folder));
}

} // verus!
