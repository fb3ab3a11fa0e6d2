//! Where the working directory lies: inside the cloud-synced tree, in a folder
//! that the tree may mirror, or somewhere only the operator can vouch for.

use vstd::prelude::*;
use vstd::string::*;
use crate::paths::{child, child_path, relative_to, strip_prefix, text_view};
use crate::text::{contains, has_substring, lowercase, lowercased};

verus! {

/// What every path inside the synced tree holds, in lowercase.
pub const CLOUD_MARKER: &'static str = "com~apple~clouddocs";

/// The first folder that the tree may mirror, in lowercase.
pub const DESKTOP_FOLDER: &'static str = "desktop";

/// The second folder that the tree may mirror, in lowercase.
pub const DOCUMENTS_FOLDER: &'static str = "documents";

/// The root of the synced tree, below the home directory.
pub const CLOUD_ROOT: &'static str = "Library/Mobile Documents/com~apple~CloudDocs";

/// What the lowercase form of a path shows.
#[derive(Clone, Copy, Debug, PartialEq, Eq, Structural)]
pub enum Hint {
    /// It holds the marker of the synced tree.
    Marker,
    /// It holds the name of a folder that the tree may mirror, and no marker.
    Mirrored,
    /// It holds neither.
    Nothing,
}

/// Why the mirror of the working directory cannot be named.
#[derive(Clone, Copy, Debug, PartialEq, Eq, Structural)]
pub enum LocateError {
    /// There is no home directory.
    NoHome,
    /// The working directory does not lie under the home directory.
    OutsideHome,
}

/// What is said of a missing home directory.
pub const NO_HOME_MESSAGE: &'static str = "Unable to get home directory";

/// What is said of a working directory outside the home directory.
pub const OUTSIDE_HOME_MESSAGE: &'static str = "prefix not found";

impl LocateError {
    /// The error in words.
    pub fn message(&self) -> (text: &'static str)
        ensures
            text == match self {
                LocateError::NoHome => NO_HOME_MESSAGE,
                LocateError::OutsideHome => OUTSIDE_HOME_MESSAGE,
            },
    {
        match self {
            LocateError::NoHome => NO_HOME_MESSAGE,
            LocateError::OutsideHome => OUTSIDE_HOME_MESSAGE,
        }
    }
}

/// What the classifier asks next, or what it has found.
#[derive(Debug, PartialEq, Eq)]
pub enum Query {
    /// Whether the working directory counts as cloud-synced.
    Settled(bool),
    /// Whether this path exists on disk.
    Mirror(String),
    /// Whether the operator wants to go on all the same.
    Operator,
}

/// A [`Query`] over sequences of characters.
pub enum QueryView {
    /// Whether the working directory counts as cloud-synced.
    Settled(bool),
    /// Whether the path of these characters exists on disk.
    Mirror(Seq<char>),
    /// Whether the operator wants to go on all the same.
    Operator,
}

impl View for Query {
    type V = QueryView;

    open spec fn view(&self) -> QueryView {
        match self {
            Query::Settled(synced) => QueryView::Settled(*synced),
            Query::Mirror(path) => QueryView::Mirror(path@),
            Query::Operator => QueryView::Operator,
        }
    }
}

/// What the caller found out for the classifier.
#[derive(Clone, Copy, Debug, PartialEq, Eq, Structural)]
pub enum Reply {
    /// Whether the path of a [`Query::Mirror`] exists.
    Exists(bool),
    /// What the operator answered to a [`Query::Operator`].
    Answer(bool),
}

/// What a lowercase path shows: the marker wins over the folder names.
pub open spec fn hint_of(lowered: Seq<char>) -> Hint {
    if has_substring(lowered, CLOUD_MARKER@) {
        Hint::Marker
    } else if has_substring(lowered, DESKTOP_FOLDER@) || has_substring(lowered, DOCUMENTS_FOLDER@) {
        Hint::Mirrored
    } else {
        Hint::Nothing
    }
}

/// The path inside the synced tree that mirrors what lies at `rest` below `home`.
pub open spec fn mirror_of(home: Seq<char>, rest: Seq<char>) -> Seq<char> {
    child_path(child_path(home, CLOUD_ROOT@), rest)
}

/// The mirror of a directory, given what is left of its path below `home`: none
/// where nothing is left, because the directory lies outside `home`.
pub open spec fn mirror_under(home: Seq<char>, rest: Option<Seq<char>>) -> Result<
    Seq<char>,
    LocateError,
> {
    match rest {
        Some(rest) => Ok(mirror_of(home, rest)),
        None => Err(LocateError::OutsideHome),
    }
}

/// The mirror of `cwd`, given the home directory where there is one.
pub open spec fn mirror_lookup(cwd: Seq<char>, home: Option<Seq<char>>) -> Result<
    Seq<char>,
    LocateError,
> {
    match home {
        Some(home) => mirror_under(home, relative_to(cwd, home)),
        None => Err(LocateError::NoHome),
    }
}

/// The query that asks for a mirror, or the error that kept it from being named.
pub open spec fn mirror_query(mirror: Result<Seq<char>, LocateError>) -> Result<
    QueryView,
    LocateError,
> {
    match mirror {
        Ok(path) => Ok(QueryView::Mirror(path)),
        Err(error) => Err(error),
    }
}

/// The first query for the working directory `cwd`: a marker in its lowercase form
/// settles it as synced; a mirrored folder's name asks for the mirror; anything
/// else goes to the operator.
pub open spec fn classification(cwd: Seq<char>, home: Option<Seq<char>>) -> Result<
    QueryView,
    LocateError,
> {
    match hint_of(lowercased(cwd)) {
        Hint::Marker => Ok(QueryView::Settled(true)),
        Hint::Mirrored => mirror_query(mirror_lookup(cwd, home)),
        Hint::Nothing => Ok(QueryView::Operator),
    }
}

/// What follows a query once its reply is in. A mirror that exists settles the
/// directory as synced, one that does not goes to the operator, and the
/// operator's answer is the finding. A finding stays, and a reply to a question
/// that was not asked changes nothing.
pub open spec fn next_query(pending: QueryView, reply: Reply) -> QueryView {
    match (pending, reply) {
        (QueryView::Mirror(_), Reply::Exists(true)) => QueryView::Settled(true),
        (QueryView::Mirror(_), Reply::Exists(false)) => QueryView::Operator,
        (QueryView::Operator, Reply::Answer(answer)) => QueryView::Settled(answer),
        _ => pending,
    }
}

/// A home directory that may be absent, as characters.
pub open spec fn home_view(home: Option<&str>) -> Option<Seq<char>> {
    match home {
        Some(h) => Some(h@),
        None => None,
    }
}

/// A path or the error in its place, over sequences of characters.
pub open spec fn path_view(path: Result<String, LocateError>) -> Result<Seq<char>, LocateError> {
    match path {
        Ok(path) => Ok(path@),
        Err(error) => Err(error),
    }
}

/// The outcome of a classification over sequences of characters.
pub open spec fn outcome_view(outcome: Result<Query, LocateError>) -> Result<
    QueryView,
    LocateError,
> {
    match outcome {
        Ok(query) => Ok(query@),
        Err(error) => Err(error),
    }
}

/// What a path shows that is already in lowercase.
pub fn hint_in(lowered: &str) -> (hint: Hint)
    ensures
        hint == hint_of(lowered@),
{
    if contains(lowered, CLOUD_MARKER) {
        Hint::Marker
    } else if contains(lowered, DESKTOP_FOLDER) || contains(lowered, DOCUMENTS_FOLDER) {
        Hint::Mirrored
    } else {
        Hint::Nothing
    }
}

/// The path inside the synced tree that mirrors what lies at `rest` below `home`.
pub fn mirror_path(home: &str, rest: &str) -> (path: String)
    ensures
        path@ == mirror_of(home@, rest@),
{
    let root = child(home, CLOUD_ROOT);
    child(root.as_str(), rest)
}

/// The mirror of the working directory, given what is left of its path below
/// `home`, or the error where nothing is: the directory lies outside `home`.
pub fn mirror_from(home: &str, rest: Option<String>) -> (mirror: Result<String, LocateError>)
    ensures
        path_view(mirror) == mirror_under(home@, text_view(rest)),
        rest is Some <==> mirror is Ok,
{
    match rest {
        Some(rest) => Ok(mirror_path(home, rest.as_str())),
        None => Err(LocateError::OutsideHome),
    }
}

/// Names the mirror of `cwd` inside the synced tree, for the caller to look up on
/// disk. Fails where there is no home directory, and where `cwd` does not lie
/// under it.
pub fn check_cloud_folder(cwd: &str, home: Option<&str>) -> (mirror: Result<String, LocateError>)
    ensures
        path_view(mirror) == mirror_lookup(cwd@, home_view(home)),
        home is None <==> mirror == Err::<String, LocateError>(LocateError::NoHome),
        home matches Some(h) && relative_to(cwd@, h@) is None <==> mirror == Err::<
            String,
            LocateError,
        >(LocateError::OutsideHome),
{
    match home {
        Some(home) => mirror_from(home, strip_prefix(cwd, home)),
        None => Err(LocateError::NoHome),
    }
}

/// Classifies the working directory as far as its path allows, and says what has
/// to be found out where the path does not settle it. A path whose lowercase form
/// holds the marker is settled as synced with nothing asked of anyone. The home
/// directory is only looked at where the mirror is asked for. No path settles a
/// directory as not synced: only the operator does.
pub fn check_pwd_is_in_icloud(cwd: &str, home: Option<&str>) -> (outcome: Result<
    Query,
    LocateError,
>)
    ensures
        outcome_view(outcome) == classification(cwd@, home_view(home)),
        has_substring(lowercased(cwd@), CLOUD_MARKER@) ==> outcome_view(outcome) == Ok::<
            QueryView,
            LocateError,
        >(QueryView::Settled(true)),
        outcome_view(outcome) != Ok::<QueryView, LocateError>(QueryView::Settled(false)),
{
    let lowered = lowercase(cwd);
    match hint_in(lowered.as_str()) {
        Hint::Marker => Ok(Query::Settled(true)),
        Hint::Mirrored => match check_cloud_folder(cwd, home) {
            Ok(path) => Ok(Query::Mirror(path)),
            Err(error) => Err(error),
        },
        Hint::Nothing => Ok(Query::Operator),
    }
}

/// Takes the reply to a pending query and gives the query that follows.
pub fn advance(pending: Query, reply: Reply) -> (next: Query)
    ensures
        next@ == next_query(pending@, reply),
{
    match (pending, reply) {
        (Query::Mirror(_), Reply::Exists(true)) => Query::Settled(true),
        (Query::Mirror(_), Reply::Exists(false)) => Query::Operator,
        (Query::Operator, Reply::Answer(answer)) => Query::Settled(answer),
        (pending, _) => pending,
    }
}

/// Where a finding comes from. Only the operator's own answer makes a refusal, and
/// what settles a directory as synced is a mirror that exists or the operator's
/// consent. A finding, once made, stays whatever is replied.
pub proof fn lemma_finding_sources(pending: QueryView, reply: Reply)
    ensures
        next_query(pending, reply) == QueryView::Settled(false) ==> pending == QueryView::Settled(
            false,
        ) || (pending == QueryView::Operator && reply == Reply::Answer(false)),
        next_query(pending, reply) == QueryView::Settled(true) ==> pending == QueryView::Settled(
            true,
        ) || (pending is Mirror && reply == Reply::Exists(true)) || (pending == QueryView::Operator
            && reply == Reply::Answer(true)),
        pending is Settled ==> next_query(pending, reply) == pending,
{
}

/// Every query is through after at most two replies to what was asked: whether
/// the mirror is found, and then, where it is not, what the operator answers.
pub proof fn lemma_settled_in_two(pending: QueryView, found: bool, answer: bool)
    ensures
        pending is Mirror ==> next_query(pending, Reply::Exists(true)) is Settled,
        pending is Mirror ==> next_query(
            next_query(pending, Reply::Exists(found)),
            Reply::Answer(answer),
        ) is Settled,
        pending is Operator ==> next_query(pending, Reply::Answer(answer)) is Settled,
{
}

} // verus!
