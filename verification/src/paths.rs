//! The two paths of a run: the folder under the working directory, and the
//! directory beside it that is exempt from synchronisation.

use vstd::prelude::*;
use vstd::string::*;

verus! {

/// What separates the segments of a path.
pub const SEPARATOR: &'static str = "/";

/// What is written behind a folder's path to name its exempt counterpart.
pub const NOSYNC_SUFFIX: &'static str = ".nosync";

/// The folder that is moved where no other is named.
pub const DEFAULT_FOLDER: &'static str = "node_modules";

/// Whether a path starts at the root.
pub open spec fn is_rooted(path: Seq<char>) -> bool {
    path.len() > 0 && path.first() == '/'
}

/// Whether a separator has to be written behind `dir` before a name follows.
pub open spec fn wants_separator(dir: Seq<char>) -> bool {
    dir.len() > 0 && dir.last() != '/'
}

/// The path of `name` under `dir`: a rooted name stands for itself; otherwise the
/// name follows the directory, after a separator where `dir` does not end in one.
pub open spec fn child_path(dir: Seq<char>, name: Seq<char>) -> Seq<char> {
    if is_rooted(name) {
        name
    } else if wants_separator(dir) {
        dir + seq!['/'] + name
    } else {
        dir + name
    }
}

/// The path of the exempt counterpart of the folder at `path`.
pub open spec fn nosync_of(path: Seq<char>) -> Seq<char> {
    path + NOSYNC_SUFFIX@
}

/// Whether a name holds a separator.
pub open spec fn has_separator(name: Seq<char>) -> bool {
    name.contains('/')
}

/// The path of `name` under `dir`.
pub fn child(dir: &str, name: &str) -> (path: String)
    ensures
        path@ == child_path(dir@, name@),
{
    let name_len = name.unicode_len();
    if name_len > 0 && name.get_char(0) == '/' {
        return String::from_str(name);
    }
    let dir_len = dir.unicode_len();
    let mut path = String::from_str(dir);
    if dir_len > 0 && dir.get_char(dir_len - 1) != '/' {
        proof {
            reveal_strlit("/");
            assert(SEPARATOR@ =~= seq!['/']);
        }
        path.append(SEPARATOR);
    }
    path.append(name);
    path
}

/// What is left of `path` once the leading segments that make up `base` are taken
/// off, as `Path::strip_prefix` of the standard library gives it, or nothing where
/// `base` does not lead `path`. The segments are compared whole, so a directory is
/// no prefix of a sibling whose name merely begins alike.
pub uninterp spec fn relative_to(path: Seq<char>, base: Seq<char>) -> Option<Seq<char>>;

/// A text that may be absent, as characters.
pub open spec fn text_view(text: Option<String>) -> Option<Seq<char>> {
    match text {
        Some(t) => Some(t@),
        None => None,
    }
}

/// Calls `Path::strip_prefix` on the two texts read as paths. Nothing is proved of
/// the result: it is taken to depend on the characters of `path` and `base` alone,
/// and is known as [`relative_to`]; an error of the call becomes `None`.
#[verifier::external_body]
pub(crate) fn strip_prefix(path: &str, base: &str) -> (rest: Option<String>)
    ensures
        text_view(rest) == relative_to(path@, base@),
{
    match std::path::Path::new(path).strip_prefix(base) {
        Ok(rest) => Some(rest.to_string_lossy().into_owned()),
        Err(_) => None,
    }
}

/// The folder's own path and that of its exempt counterpart. The second is always
/// the first with [`NOSYNC_SUFFIX`] behind it, whatever has been moved meanwhile.
#[derive(Debug, PartialEq, Eq)]
pub struct Targets {
    original: String,
    nosync: String,
}

impl Targets {
    #[verifier::type_invariant]
    spec fn suffixed(&self) -> bool {
        self.nosync@ == nosync_of(self.original@)
    }

    /// The folder's path, as characters.
    pub closed spec fn original_path(&self) -> Seq<char> {
        self.original@
    }

    /// The exempt counterpart's path, as characters.
    pub closed spec fn nosync_path(&self) -> Seq<char> {
        self.nosync@
    }

    /// The paths for the folder `folder` under the working directory `cwd`.
    pub fn new(cwd: &str, folder: &str) -> (targets: Targets)
        ensures
            targets.original_path() == child_path(cwd@, folder@),
            targets.nosync_path() == nosync_of(child_path(cwd@, folder@)),
    {
        let original = child(cwd, folder);
        let mut nosync = original.clone();
        nosync.append(NOSYNC_SUFFIX);
        Targets { original, nosync }
    }

    /// The folder's path.
    pub fn original(&self) -> (path: &str)
        ensures
            path@ == self.original_path(),
    {
        self.original.as_str()
    }

    /// The exempt counterpart's path: the folder's path with the suffix behind it.
    pub fn nosync(&self) -> (path: &str)
        ensures
            path@ == self.nosync_path(),
            path@ == nosync_of(self.original_path()),
    {
        proof {
            use_type_invariant(self);
        }
        self.nosync.as_str()
    }
}

/// The exempt counterpart's path is the folder's path with the suffix behind it,
/// and it is also the path, under the same directory, of the name with the suffix
/// behind it. For a name without a separator, the folder's path is the directory,
/// a separator where the directory does not end in one, and the name.
pub proof fn lemma_nosync_is_suffixed(cwd: Seq<char>, folder: Seq<char>)
    ensures
        nosync_of(child_path(cwd, folder)) == child_path(cwd, folder) + NOSYNC_SUFFIX@,
        nosync_of(child_path(cwd, folder)) == child_path(cwd, folder + NOSYNC_SUFFIX@),
        !has_separator(folder) ==> child_path(cwd, folder) == if wants_separator(cwd) {
            cwd + seq!['/'] + folder
        } else {
            cwd + folder
        },
{
    reveal_strlit(".nosync");
    let suffixed = folder + NOSYNC_SUFFIX@;
    assert(NOSYNC_SUFFIX@.len() == 7 && NOSYNC_SUFFIX@[0] == '.');
    assert(suffixed.first() == if folder.len() > 0 {
        folder.first()
    } else {
        '.'
    });
    assert(is_rooted(suffixed) == is_rooted(folder));
    if is_rooted(folder) {
    } else if wants_separator(cwd) {
        assert(cwd + seq!['/'] + folder + NOSYNC_SUFFIX@ =~= cwd + seq!['/'] + suffixed);
    } else {
        assert(cwd + folder + NOSYNC_SUFFIX@ =~= cwd + suffixed);
    }
    if !has_separator(folder) && is_rooted(folder) {
        assert(folder[0] == '/');
    }
}

} // verus!
