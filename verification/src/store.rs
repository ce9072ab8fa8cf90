use vstd::prelude::*;

use crate::errors::{DearyError, ErrorKind};
use crate::names::{commit_message, spec_commit_message, Change};

verus! {

#[verifier::external_type_specification]
#[verifier::external_body]
pub struct ExRepository(git2::Repository);

#[verifier::external_type_specification]
#[verifier::external_body]
pub struct ExGitError(git2::Error);

#[verifier::external_type_specification]
#[verifier::external_body]
pub struct ExOid(git2::Oid);

/// The commit messages of the linear first-parent history that `HEAD`
/// points to, oldest first; empty while `HEAD` is unborn. Each recorded
/// change appends one message, so the length is the commit count and
/// every commit's parent is the one before it in this sequence.
pub uninterp spec fn repo_commits(r: git2::Repository) -> Seq<Seq<char>>;

/// The (author name, author email) of each commit of that same
/// history, in the same order.
pub uninterp spec fn repo_authors(r: git2::Repository) -> Seq<(Seq<char>, Seq<char>)>;

/// The absolute path of the repository's working directory.
pub uninterp spec fn repo_work_dir(r: git2::Repository) -> Seq<char>;

/// The repository's effective configuration: what a lookup of each
/// key would now return.
pub uninterp spec fn repo_config_map(r: git2::Repository) -> Map<Seq<char>, Seq<char>>;

/// The set of file paths recorded in the repository's index — the
/// staged snapshot that the next tree write turns into a tree.
pub uninterp spec fn repo_staged(r: git2::Repository) -> Set<Seq<char>>;

/// The set of file paths recorded by the tree of the commit `HEAD`
/// points to; empty while `HEAD` cannot be resolved.
pub uninterp spec fn repo_head_paths(r: git2::Repository) -> Set<Seq<char>>;

/// The bytes of the reserved `.gpg_id` metadata file in the working
/// directory. The store owns that file: only the install step of
/// initialization writes it.
pub uninterp spec fn repo_gpg_id_bytes(r: git2::Repository) -> Seq<u8>;

/// The set of file paths recorded by the tree object with the given
/// id (an object id denotes one fixed tree).
pub uninterp spec fn tree_paths(t: git2::Oid) -> Set<Seq<char>>;

/// The parts of the repository that no staging or commit step ever
/// touches: its working directory, its configuration, and the
/// recipient metadata file.
pub open spec fn same_store_env(a: git2::Repository, b: git2::Repository) -> bool {
    repo_work_dir(b) == repo_work_dir(a) && repo_config_map(b) == repo_config_map(a)
        && repo_gpg_id_bytes(b) == repo_gpg_id_bytes(a)
}

/// The staged path set after recording one change: the named file is
/// staged for an addition or edit, and dropped for a deletion.
pub open spec fn spec_stage(s: Set<Seq<char>>, change: Change, file: Seq<char>) -> Set<Seq<char>> {
    match change {
        Change::Delete => s.remove(file),
        _ => s.insert(file),
    }
}

/// The configuration after setting each pair in order (a later pair
/// overrides an earlier one with the same key).
pub open spec fn spec_apply_pairs(
    m: Map<Seq<char>, Seq<char>>,
    pairs: Seq<(String, String)>,
) -> Map<Seq<char>, Seq<char>>
    decreases pairs.len(),
{
    if pairs.len() == 0 {
        m
    } else {
        spec_apply_pairs(m, pairs.drop_last()).insert(pairs.last().0@, pairs.last().1@)
    }
}

/// Every given pair was applied: each key maps to the value of its
/// last occurrence among the pairs.
pub open spec fn spec_config_applied(
    m: Map<Seq<char>, Seq<char>>,
    pairs: Seq<(String, String)>,
) -> bool {
    forall|j: int|
        0 <= j < pairs.len() && (forall|k: int|
            j < k < pairs.len() ==> (#[trigger] pairs[k]).0@ != pairs[j].0@) ==> m.contains_key(
            (#[trigger] pairs[j]).0@,
        ) && m[pairs[j].0@] == pairs[j].1@
}

/// Law: setting each pair in order applies every pair — afterwards
/// each key holds the value of its last occurrence.
pub proof fn lemma_apply_pairs_applies(m: Map<Seq<char>, Seq<char>>, pairs: Seq<(String, String)>)
    ensures
        spec_config_applied(spec_apply_pairs(m, pairs), pairs),
    decreases pairs.len(),
{
    if pairs.len() > 0 {
        let head = pairs.drop_last();
        let last = pairs.last();
        lemma_apply_pairs_applies(m, head);
        let out = spec_apply_pairs(m, pairs);
        assert forall|j: int|
            0 <= j < pairs.len() && (forall|k: int|
                j < k < pairs.len() ==> (#[trigger] pairs[k]).0@ != pairs[j].0@) implies out
            .contains_key((#[trigger] pairs[j]).0@) && out[pairs[j].0@] == pairs[j].1@ by {
            if j == pairs.len() - 1 {
                assert(out.contains_key(last.0@) && out[last.0@] == last.1@);
            } else {
                assert(pairs[pairs.len() - 1].0@ != pairs[j].0@);
                assert(forall|k: int|
                    j < k < head.len() ==> (#[trigger] head[k]).0@ != head[j].0@) by {
                    assert(forall|k: int| 0 <= k < head.len() ==> head[k] == pairs[k]);
                }
                assert(head[j] == pairs[j]);
            }
        }
    }
}

/// Relies on git2::Repository::init: creates (or, for an existing
/// repository, reopens) a repository at `path`, creating missing
/// directories. Nothing is assumed of the resulting state: the first
/// commit itself witnesses that the history was empty, and the stage
/// is reset before it is used.
#[verifier::external_body]
pub(crate) fn git_init(path: &str) -> Result<git2::Repository, git2::Error> {
    git2::Repository::init(std::path::Path::new(path))
}

/// Relies on git2::Repository::open: opens an existing repository and
/// fails when `path` does not denote one.
#[verifier::external_body]
pub(crate) fn git_open(path: &str) -> Result<git2::Repository, git2::Error> {
    git2::Repository::open(std::path::Path::new(path))
}

/// Relies on git2::Repository::workdir: the working directory of a
/// non-bare repository. `None` is also returned here when the path is
/// not valid UTF-8.
#[verifier::external_body]
pub(crate) fn repo_workdir(r: &git2::Repository) -> (res: Option<String>)
    ensures
        res is Some ==> res->0@ == repo_work_dir(*r),
{
    match r.workdir() {
        Some(p) => match p.to_str() {
            Some(s) => Some(s.to_string()),
            None => None,
        },
        None => None,
    }
}

/// Relies on git2::Repository::config and git2::Config::set_str,
/// which set one entry at the configuration level lookups read first,
/// so the effective configuration afterwards maps the key to the
/// value. Nothing else of the repository changes.
#[verifier::external_body]
pub(crate) fn config_set_str(r: &mut git2::Repository, name: &str, value: &str) -> (res: Result<
    (),
    git2::Error,
>)
    ensures
        res is Ok ==> repo_config_map(*final(r)) == repo_config_map(*old(r)).insert(
            name@,
            value@,
        ),
        repo_commits(*final(r)) == repo_commits(*old(r)),
        repo_authors(*final(r)) == repo_authors(*old(r)),
        repo_staged(*final(r)) == repo_staged(*old(r)),
        repo_head_paths(*final(r)) == repo_head_paths(*old(r)),
        repo_work_dir(*final(r)) == repo_work_dir(*old(r)),
        repo_gpg_id_bytes(*final(r)) == repo_gpg_id_bytes(*old(r)),
{
    let mut cfg = r.config()?;
    cfg.set_str(name, value)
}

/// Relies on git2::Repository::index and git2::Index::add_path
/// (`git_index_add_bypath`): adds or updates the index entry for
/// exactly the one named file, read from the working directory;
/// fails — adding nothing — when the file cannot be read.
#[verifier::external_body]
pub(crate) fn stage_add_path(r: &mut git2::Repository, name: &str) -> (res: Result<
    (),
    git2::Error,
>)
    ensures
        res is Ok ==> repo_staged(*final(r)) == repo_staged(*old(r)).insert(name@),
        res is Err ==> repo_staged(*final(r)) == repo_staged(*old(r)),
        repo_commits(*final(r)) == repo_commits(*old(r)),
        repo_authors(*final(r)) == repo_authors(*old(r)),
        repo_head_paths(*final(r)) == repo_head_paths(*old(r)),
        same_store_env(*old(r), *final(r)),
{
    let mut index = r.index()?;
    index.add_path(std::path::Path::new(name))
}

/// Relies on git2::Repository::index and git2::Index::remove_path
/// (`git_index_remove_bypath`): removes the index entry for exactly
/// the one named file.
#[verifier::external_body]
pub(crate) fn stage_remove_path(r: &mut git2::Repository, name: &str) -> (res: Result<
    (),
    git2::Error,
>)
    ensures
        res is Ok ==> repo_staged(*final(r)) == repo_staged(*old(r)).remove(name@),
        res is Err ==> repo_staged(*final(r)) == repo_staged(*old(r)),
        repo_commits(*final(r)) == repo_commits(*old(r)),
        repo_authors(*final(r)) == repo_authors(*old(r)),
        repo_head_paths(*final(r)) == repo_head_paths(*old(r)),
        same_store_env(*old(r), *final(r)),
{
    let mut index = r.index()?;
    index.remove_path(std::path::Path::new(name))
}

/// Relies on git2::Repository::index and git2::Index::write: persists
/// the index to disk under an atomic file lock; the staged paths are
/// unchanged either way.
#[verifier::external_body]
pub(crate) fn stage_write(r: &mut git2::Repository) -> (res: Result<(), git2::Error>)
    ensures
        repo_staged(*final(r)) == repo_staged(*old(r)),
        repo_commits(*final(r)) == repo_commits(*old(r)),
        repo_authors(*final(r)) == repo_authors(*old(r)),
        repo_head_paths(*final(r)) == repo_head_paths(*old(r)),
        same_store_env(*old(r), *final(r)),
{
    let mut index = r.index()?;
    index.write()
}

/// Relies on git2::Repository::index and git2::Index::write_tree:
/// writes the staged snapshot as a tree into the object store and
/// returns its id, so the returned tree records exactly the staged
/// paths; the repository's visible state is unchanged.
#[verifier::external_body]
pub(crate) fn write_stage_tree(r: &mut git2::Repository) -> (res: Result<git2::Oid, git2::Error>)
    ensures
        res is Ok ==> tree_paths(res->Ok_0) == repo_staged(*old(r)),
        repo_staged(*final(r)) == repo_staged(*old(r)),
        repo_commits(*final(r)) == repo_commits(*old(r)),
        repo_authors(*final(r)) == repo_authors(*old(r)),
        repo_head_paths(*final(r)) == repo_head_paths(*old(r)),
        same_store_env(*old(r), *final(r)),
{
    let mut index = r.index()?;
    index.write_tree()
}

/// Relies on git2::Repository::index, head, Reference::peel_to_tree,
/// git2::Index::read_tree, clear and write: restores the index to the
/// snapshot of the commit `HEAD` points to (or to empty while `HEAD`
/// is unborn), discarding whatever was staged, and persists that.
/// `read_tree` builds the replacement entries in full before swapping
/// them in, so a failure leaves the staged set either untouched or
/// already restored.
#[verifier::external_body]
pub(crate) fn reset_stage_to_head(r: &mut git2::Repository) -> (res: Result<(), git2::Error>)
    ensures
        res is Ok ==> repo_staged(*final(r)) == repo_head_paths(*old(r)),
        res is Err ==> (repo_staged(*final(r)) == repo_staged(*old(r)) || repo_staged(*final(r))
            == repo_head_paths(*old(r))),
        repo_commits(*final(r)) == repo_commits(*old(r)),
        repo_authors(*final(r)) == repo_authors(*old(r)),
        repo_head_paths(*final(r)) == repo_head_paths(*old(r)),
        same_store_env(*old(r), *final(r)),
{
    let mut index = r.index()?;
    match r.head() {
        Ok(head) => {
            let tree = head.peel_to_tree()?;
            index.read_tree(&tree)?;
        },
        Err(_) => {
            index.clear()?;
        },
    }
    index.write()
}

/// Relies on git2::Repository::find_tree, signature, head,
/// Reference::peel_to_commit and Repository::commit, which together
/// commit the tree `tree` onto `HEAD`: with `initial` the commit gets
/// no parent and is only accepted while `HEAD` is unborn (libgit2
/// requires the first parent of a commit that updates a reference to
/// be that reference's current tip); otherwise the single parent is
/// the current tip, which must exist. On success exactly one commit
/// with message `message` is appended, recording the given tree, and
/// its author and committer are the configured `user.name` and
/// `user.email` (Repository::signature reads exactly those keys and
/// fails when one is missing). On failure nothing of the history
/// moves. The index, configuration, working directory and metadata
/// file never change.
#[verifier::external_body]
pub(crate) fn commit_to_head(
    r: &mut git2::Repository,
    message: &str,
    tree: git2::Oid,
    initial: bool,
) -> (res: Result<(), git2::Error>)
    ensures
        res is Ok ==> repo_commits(*final(r)) == repo_commits(*old(r)).push(message@),
        res is Ok ==> repo_config_map(*old(r)).contains_key("user.name"@) && repo_config_map(
            *old(r),
        ).contains_key("user.email"@),
        res is Ok ==> repo_authors(*final(r)) == repo_authors(*old(r)).push(
            (repo_config_map(*old(r))["user.name"@], repo_config_map(*old(r))["user.email"@]),
        ),
        res is Ok ==> repo_head_paths(*final(r)) == tree_paths(tree),
        res is Ok ==> (initial <==> repo_commits(*old(r)).len() == 0),
        res is Ok && initial ==> repo_authors(*old(r)).len() == 0 && repo_head_paths(*old(r))
            == Set::<Seq<char>>::empty(),
        res is Err ==> repo_commits(*final(r)) == repo_commits(*old(r)) && repo_authors(*final(r))
            == repo_authors(*old(r)) && repo_head_paths(*final(r)) == repo_head_paths(*old(r)),
        repo_staged(*final(r)) == repo_staged(*old(r)),
        same_store_env(*old(r), *final(r)),
{
    let t = r.find_tree(tree)?;
    let sig = r.signature()?;
    let mut parents: Vec<&git2::Commit> = Vec::new();
    let tip;
    if !initial {
        tip = r.head()?.peel_to_commit()?;
        parents.push(&tip);
    }
    r.commit(Some("HEAD"), &sig, &sig, message, &t, &parents)?;
    Ok(())
}

/// Relies on git2::Error::message: the human-readable description.
#[verifier::external_body]
pub(crate) fn git_error_message(e: &git2::Error) -> String {
    e.message().to_string()
}

/// Wrap a version-control failure as a store failure.
pub(crate) fn store_error(e: &git2::Error) -> (r: DearyError)
    ensures
        r.kind == ErrorKind::StoreFailure,
        r.status is None,
{
    let msg = git_error_message(e);
    DearyError::with_kind(ErrorKind::StoreFailure, msg.as_str())
}

/// Record one change as one commit: stage exactly the named file (its
/// new content for an addition or edit, its removal for a deletion),
/// persist the index, write its tree, and commit that tree onto `HEAD`
/// with the message built from the change and the name — so the new
/// commit's snapshot is exactly the staged one, which differs from
/// what was staged before at just the named file, and its author is
/// the configured identity. With `initial` the commit is parentless
/// and only possible on an empty history; otherwise its parent is the
/// current tip. On any failure the history is left exactly as it was,
/// and the stage is restored to the last commit's snapshot (where even
/// that restoration fails, the staged set is at worst the one staged
/// change).
pub fn commit_change(
    repo: &mut git2::Repository,
    file: &str,
    change: Change,
    initial: bool,
) -> (res: Result<(), DearyError>)
    ensures
        res is Ok ==> repo_commits(*final(repo)) == repo_commits(*old(repo)).push(
            spec_commit_message(change, file@),
        ),
        res is Ok ==> (initial <==> repo_commits(*old(repo)).len() == 0),
        res is Ok && initial ==> repo_authors(*old(repo)).len() == 0 && repo_head_paths(
            *old(repo),
        ) == Set::<Seq<char>>::empty(),
        res is Ok ==> repo_staged(*final(repo)) == spec_stage(
            repo_staged(*old(repo)),
            change,
            file@,
        ),
        res is Ok ==> repo_head_paths(*final(repo)) == repo_staged(*final(repo)),
        res is Ok ==> repo_config_map(*old(repo)).contains_key("user.name"@)
            && repo_config_map(*old(repo)).contains_key("user.email"@),
        res is Ok ==> repo_authors(*final(repo)) == repo_authors(*old(repo)).push(
            (
                repo_config_map(*old(repo))["user.name"@],
                repo_config_map(*old(repo))["user.email"@],
            ),
        ),
        res is Err ==> repo_commits(*final(repo)) == repo_commits(*old(repo)) && repo_authors(
            *final(repo),
        ) == repo_authors(*old(repo)) && repo_head_paths(*final(repo)) == repo_head_paths(
            *old(repo),
        ),
        res is Err ==> res->Err_0.kind == ErrorKind::StoreFailure,
        res is Err ==> (repo_staged(*final(repo)) == repo_staged(*old(repo)) || repo_staged(
            *final(repo),
        ) == repo_head_paths(*old(repo)) || repo_staged(*final(repo)) == spec_stage(
            repo_staged(*old(repo)),
            change,
            file@,
        )),
        same_store_env(*old(repo), *final(repo)),
{
    let staged = match change {
        Change::Delete => stage_remove_path(repo, file),
        _ => stage_add_path(repo, file),
    };
    match staged {
        Ok(()) => {},
        Err(e) => { return Err(store_error(&e)); },
    }
    match stage_write(repo) {
        Ok(()) => {},
        Err(e) => {
            let _ = reset_stage_to_head(repo);
            return Err(store_error(&e));
        },
    }
    let oid = match write_stage_tree(repo) {
        Ok(o) => o,
        Err(e) => {
            let _ = reset_stage_to_head(repo);
            return Err(store_error(&e));
        },
    };
    let message = commit_message(change, file);
    match commit_to_head(repo, message.as_str(), oid, initial) {
        Ok(()) => Ok(()),
        Err(e) => {
            let _ = reset_stage_to_head(repo);
            Err(store_error(&e))
        },
    }
}

} // verus!
