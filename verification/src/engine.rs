use vstd::prelude::*;
use vstd::string::StringSliceAdditionalSpecFns;

use crate::errors::{DearyError, ErrorKind};
use crate::names::{
    filter_visible, join_path, spec_commit_message, spec_is_reserved, spec_join, spec_visible,
    views_of, Change,
};
use crate::staging::{
    install_gpg_id, io_failure, slot_bytes, temp_in, temp_path, temp_write, TempSlot,
};
use crate::store::{
    commit_change, config_set_str, git_error_message, git_init, git_open,
    lemma_apply_pairs_applies, repo_authors, repo_commits, repo_config_map, repo_gpg_id_bytes,
    repo_head_paths, repo_staged, repo_work_dir, repo_workdir, reset_stage_to_head,
    spec_apply_pairs, spec_config_applied, spec_stage, store_error,
};
use crate::tools::{
    decrypt_command, editor_command, encrypt_command, find_editor, find_gpg, spec_decrypt_argv,
    spec_encrypt_argv, timestamp_name, RunOutcome,
};

verus! {

/// The entry lifecycle engine: one open journal repository together
/// with its configuration. Operations that run an external process
/// (the editor, the cipher tool) are split in steps: the engine hands
/// the caller a command line to run and is told the outcome — exit
/// status included — and only after a successful encryption does it
/// record a commit, so the history can never move unless every
/// preceding step succeeded.
pub struct Deary {
    repo: git2::Repository,
    editor: Option<String>,
    work_dir: String,
}

impl Deary {
    /// The commit messages of the repository's linear history, oldest
    /// first; one message per recorded change.
    pub closed spec fn history(&self) -> Seq<Seq<char>> {
        repo_commits(self.repo)
    }

    /// The (author name, author email) of each commit of the history,
    /// in the same order.
    pub closed spec fn authors_view(&self) -> Seq<(Seq<char>, Seq<char>)> {
        repo_authors(self.repo)
    }

    /// The absolute path of the working directory that entries live in.
    pub closed spec fn dir_view(&self) -> Seq<char> {
        repo_work_dir(self.repo)
    }

    /// The configured editor override, if any.
    pub closed spec fn editor_view(&self) -> Option<Seq<char>> {
        match self.editor {
            Some(e) => Some(e@),
            None => None,
        }
    }

    /// The repository's effective configuration.
    pub closed spec fn config_view(&self) -> Map<Seq<char>, Seq<char>> {
        repo_config_map(self.repo)
    }

    /// The bytes of the reserved `.gpg_id` metadata file.
    pub closed spec fn gpg_id_view(&self) -> Seq<u8> {
        repo_gpg_id_bytes(self.repo)
    }

    /// The set of paths staged in the repository's index.
    pub closed spec fn staged_view(&self) -> Set<Seq<char>> {
        repo_staged(self.repo)
    }

    /// The set of paths recorded by the last commit's snapshot.
    pub closed spec fn tracked_view(&self) -> Set<Seq<char>> {
        repo_head_paths(self.repo)
    }

    /// The stage holds exactly the last commit's snapshot — the
    /// repository's resting state between operations.
    pub open spec fn synced(&self) -> bool {
        self.staged_view() == self.tracked_view()
    }

    /// Validity: the cached working directory agrees with the
    /// repository's own.
    pub closed spec fn wf(&self) -> bool {
        self.work_dir@ == repo_work_dir(self.repo)
    }

    /// The engine state outside the history — working directory,
    /// editor, configuration and metadata file — which no operation
    /// after initialization touches.
    pub open spec fn same_setup(&self, prev: Deary) -> bool {
        self.dir_view() == prev.dir_view() && self.editor_view() == prev.editor_view()
            && self.config_view() == prev.config_view() && self.gpg_id_view()
            == prev.gpg_id_view()
    }

    /// One change was recorded on top of `prev`: one commit appended
    /// with the change's message, authored by the configured
    /// identity, whose snapshot is the prior stage changed at exactly
    /// the named file; stage and snapshot are in step again.
    pub open spec fn recorded(&self, prev: Deary, change: Change, name: Seq<char>) -> bool {
        &&& self.history() == prev.history().push(spec_commit_message(change, name))
        &&& prev.config_view().contains_key("user.name"@)
        &&& prev.config_view().contains_key("user.email"@)
        &&& self.authors_view() == prev.authors_view().push(
            (prev.config_view()["user.name"@], prev.config_view()["user.email"@]),
        )
        &&& self.staged_view() == spec_stage(prev.staged_view(), change, name)
        &&& self.synced()
    }

    /// Nothing was recorded: history, authors and last snapshot stand
    /// exactly as in `prev`.
    pub open spec fn unrecorded(&self, prev: Deary) -> bool {
        self.history() == prev.history() && self.authors_view() == prev.authors_view()
            && self.tracked_view() == prev.tracked_view()
    }

    /// Create a new journal repository at `repo_path`: apply the given
    /// configuration entries (the commit authorship identity), write
    /// the recipient identifier into the reserved `.gpg_id` metadata
    /// file, and record the parentless initial commit for exactly that
    /// one file. `target_exists` is the caller's report of its
    /// filesystem probe of `repo_path`: when anything already exists
    /// there — a repository or a conflicting directory — the call
    /// fails with `AlreadyExists` before touching anything, as it
    /// also does when the path opens as a repository.
    pub fn init(
        repo_path: &str,
        gpg_id: &str,
        git_config: &Vec<(String, String)>,
        target_exists: bool,
    ) -> (r: Result<Deary, DearyError>)
        ensures
            target_exists ==> r is Err && r->Err_0.kind == ErrorKind::AlreadyExists,
            r is Ok ==> r->Ok_0.wf() && r->Ok_0.synced() && r->Ok_0.editor_view() is None,
            r is Ok ==> r->Ok_0.history() == seq![spec_commit_message(Change::Add, ".gpg_id"@)],
            r is Ok ==> spec_config_applied(r->Ok_0.config_view(), git_config@),
            r is Ok ==> r->Ok_0.config_view().contains_key("user.name"@)
                && r->Ok_0.config_view().contains_key("user.email"@),
            r is Ok ==> r->Ok_0.authors_view() == seq![
                (
                    r->Ok_0.config_view()["user.name"@],
                    r->Ok_0.config_view()["user.email"@],
                ),
            ],
            r is Ok ==> r->Ok_0.tracked_view() == Set::<Seq<char>>::empty().insert(".gpg_id"@),
            r is Ok ==> r->Ok_0.gpg_id_view() == gpg_id.spec_bytes(),
            r is Err ==> (r->Err_0.kind == ErrorKind::AlreadyExists || r->Err_0.kind
                == ErrorKind::StoreFailure || r->Err_0.kind == ErrorKind::IoFailure),
    {
        if target_exists {
            return Err(
                DearyError::with_kind(
                    ErrorKind::AlreadyExists,
                    "something already exists at the repository path",
                ),
            );
        }
        match git_open(repo_path) {
            Ok(_) => {
                return Err(
                    DearyError::with_kind(
                        ErrorKind::AlreadyExists,
                        "a repository already exists at the given path",
                    ),
                );
            },
            Err(_) => {},
        }
        let mut repo = match git_init(repo_path) {
            Ok(r) => r,
            Err(e) => { return Err(store_error(&e)); },
        };
        let ghost base_config = repo_config_map(repo);
        let mut i: usize = 0;
        while i < git_config.len()
            invariant
                !target_exists,
                i <= git_config@.len(),
                repo_config_map(repo) == spec_apply_pairs(
                    base_config,
                    git_config@.subrange(0, i as int),
                ),
            decreases git_config@.len() - i,
        {
            let pair = &git_config[i];
            match config_set_str(&mut repo, pair.0.as_str(), pair.1.as_str()) {
                Ok(()) => {},
                Err(e) => { return Err(store_error(&e)); },
            }
            proof {
                let cur = git_config@.subrange(0, i as int + 1);
                assert(cur.drop_last() =~= git_config@.subrange(0, i as int));
                assert(cur.last() == git_config@[i as int]);
            }
            i = i + 1;
        }
        proof {
            assert(git_config@.subrange(0, git_config@.len() as int) =~= git_config@);
            lemma_apply_pairs_applies(base_config, git_config@);
        }
        let wd = match repo_workdir(&repo) {
            Some(w) => w,
            None => {
                return Err(
                    DearyError::with_kind(
                        ErrorKind::StoreFailure,
                        "the repository has no working directory",
                    ),
                );
            },
        };
        match reset_stage_to_head(&mut repo) {
            Ok(()) => {},
            Err(e) => { return Err(store_error(&e)); },
        }
        let mut slot = match temp_in(wd.as_str()) {
            Ok(t) => t,
            Err(e) => { return Err(io_failure(&e)); },
        };
        match temp_write(&mut slot, gpg_id.as_bytes()) {
            Ok(()) => {},
            Err(e) => { return Err(io_failure(&e)); },
        }
        proof {
            assert(slot_bytes(slot) =~= gpg_id.spec_bytes());
        }
        match install_gpg_id(&mut repo, slot) {
            Ok(()) => {},
            Err(e) => { return Err(io_failure(&e)); },
        }
        match commit_change(&mut repo, ".gpg_id", Change::Add, true) {
            Ok(()) => {},
            Err(e) => { return Err(e); },
        }
        proof {
            assert(repo_commits(repo) =~= seq![spec_commit_message(Change::Add, ".gpg_id"@)]);
            assert(repo_authors(repo) =~= seq![
                (repo_config_map(repo)["user.name"@], repo_config_map(repo)["user.email"@]),
            ]);
            assert(repo_staged(repo) =~= Set::<Seq<char>>::empty().insert(".gpg_id"@));
        }
        Ok(Deary { repo, editor: None, work_dir: wd })
    }

    /// Open an existing journal repository; the editor override is the
    /// engine's configuration for later edits (environment lookup is
    /// the caller's business). Fails with `NotFound` when `repo_path`
    /// does not denote a repository — before any temporary file or
    /// external process exists.
    pub fn new(repo_path: &str, editor: Option<String>) -> (r: Result<Deary, DearyError>)
        ensures
            r is Ok ==> r->Ok_0.wf(),
            r is Ok ==> (r->Ok_0.editor_view() is Some <==> editor is Some),
            r is Ok && editor is Some ==> r->Ok_0.editor_view()->0 == editor->0@,
            r is Err ==> (r->Err_0.kind == ErrorKind::NotFound || r->Err_0.kind
                == ErrorKind::StoreFailure),
    {
        let repo = match git_open(repo_path) {
            Ok(r) => r,
            Err(e) => {
                let msg = git_error_message(&e);
                return Err(DearyError::with_kind(ErrorKind::NotFound, msg.as_str()));
            },
        };
        let wd = match repo_workdir(&repo) {
            Some(w) => w,
            None => {
                return Err(
                    DearyError::with_kind(
                        ErrorKind::StoreFailure,
                        "the repository has no working directory",
                    ),
                );
            },
        };
        Ok(Deary { repo, editor, work_dir: wd })
    }

    /// The working directory entries are read from and written to.
    pub fn work_dir(&self) -> (r: String)
        requires
            self.wf(),
        ensures
            r@ == self.dir_view(),
    {
        self.work_dir.clone()
    }

    /// The path of the reserved metadata file holding the recipient
    /// identifier.
    pub fn gpg_id_path(&self) -> (r: String)
        requires
            self.wf(),
        ensures
            r@ == spec_join(self.dir_view(), ".gpg_id"@),
    {
        join_path(self.work_dir.as_str(), ".gpg_id")
    }

    /// Begin creating an entry: resolve both tools (failing fast,
    /// before any temporary file exists), allocate the empty plaintext
    /// staging file, and name the entry after the current UTC time.
    /// The returned session carries the editor command to run; nothing
    /// in the repository has changed yet.
    pub fn create_entry(&self) -> (r: Result<CreateSession, DearyError>)
        requires
            self.wf(),
        ensures
            r is Ok ==> !spec_is_reserved(r->Ok_0.entry_name()),
            r is Ok ==> r->Ok_0.staged_bytes() == Seq::<u8>::empty(),
            r is Ok ==> r->Ok_0.id_path() == spec_join(self.dir_view(), ".gpg_id"@),
            r is Ok ==> r->Ok_0.cipher_loc() == spec_join(self.dir_view(), r->Ok_0.entry_name()),
            r is Ok ==> r->Ok_0.cmd_editor().len() == 2 && r->Ok_0.cmd_editor()[1]
                == r->Ok_0.tmp_loc(),
            r is Ok && self.editor_view() is Some ==> r->Ok_0.cmd_editor()[0]
                == self.editor_view()->0,
            r is Err ==> (r->Err_0.kind == ErrorKind::ToolNotFound || r->Err_0.kind
                == ErrorKind::IoFailure),
    {
        let ed = match find_editor(&self.editor) {
            Ok(e) => e,
            Err(e) => { return Err(e); },
        };
        let gpg = match find_gpg() {
            Ok(g) => g,
            Err(e) => { return Err(e); },
        };
        let slot = match temp_in("/dev/shm") {
            Ok(t) => t,
            Err(e) => { return Err(io_failure(&e)); },
        };
        let tmp_path = temp_path(&slot);
        let name = timestamp_name();
        let cipher_path = join_path(self.work_dir.as_str(), name.as_str());
        let id_path = join_path(self.work_dir.as_str(), ".gpg_id");
        let editor_argv = editor_command(ed.as_str(), tmp_path.as_str());
        Ok(
            CreateSession {
                tmp: slot,
                tmp_path,
                name,
                editor_argv,
                gpg_bin: gpg,
                gpg_id_path: id_path,
                cipher_path,
            },
        )
    }

    /// Begin reading an entry: resolve the cipher tool and hand back
    /// the decrypt command line for the entry's path. A pure query: no
    /// temporary file, no mutation.
    pub fn read_entry(&self, name: &str) -> (r: Result<ReadRequest, DearyError>)
        requires
            self.wf(),
        ensures
            r is Ok ==> r->Ok_0.entry_name() == name@,
            r is Ok ==> r->Ok_0.cmd_decrypt() == spec_decrypt_argv(
                r->Ok_0.cmd_decrypt()[0],
                spec_join(self.dir_view(), name@),
            ),
            r is Err ==> r->Err_0.kind == ErrorKind::ToolNotFound,
    {
        let gpg = match find_gpg() {
            Ok(g) => g,
            Err(e) => { return Err(e); },
        };
        let path = join_path(self.work_dir.as_str(), name);
        let argv = decrypt_command(gpg.as_str(), path.as_str());
        Ok(ReadRequest { name: String::from_str(name), decrypt_argv: argv })
    }

    /// Begin updating an entry: resolve both tools (failing fast,
    /// before any temporary file exists) and hand back the decrypt
    /// command line for the entry's current ciphertext.
    pub fn update_entry(&self, name: &str) -> (r: Result<UpdateRead, DearyError>)
        requires
            self.wf(),
        ensures
            r is Ok ==> r->Ok_0.entry_name() == name@,
            r is Ok ==> r->Ok_0.entry_loc() == spec_join(self.dir_view(), name@),
            r is Ok ==> r->Ok_0.cmd_decrypt() == spec_decrypt_argv(
                r->Ok_0.gpg_view(),
                spec_join(self.dir_view(), name@),
            ),
            r is Ok ==> r->Ok_0.id_path() == spec_join(self.dir_view(), ".gpg_id"@),
            r is Ok && self.editor_view() is Some ==> r->Ok_0.editor_bin_view()
                == self.editor_view()->0,
            r is Err ==> r->Err_0.kind == ErrorKind::ToolNotFound,
    {
        let ed = match find_editor(&self.editor) {
            Ok(e) => e,
            Err(e) => { return Err(e); },
        };
        let gpg = match find_gpg() {
            Ok(g) => g,
            Err(e) => { return Err(e); },
        };
        let path = join_path(self.work_dir.as_str(), name);
        let argv = decrypt_command(gpg.as_str(), path.as_str());
        let id_path = join_path(self.work_dir.as_str(), ".gpg_id");
        Ok(
            UpdateRead {
                name: String::from_str(name),
                entry_path: path,
                decrypt_argv: argv,
                editor_bin: ed,
                gpg_bin: gpg,
                gpg_id_path: id_path,
            },
        )
    }

    /// Begin deleting an entry: name the working-directory file the
    /// caller must remove. Nothing is committed yet.
    pub fn delete_entry(&self, name: &str) -> (r: DeleteRequest)
        requires
            self.wf(),
        ensures
            r.entry_name() == name@,
            r.target() == spec_join(self.dir_view(), name@),
    {
        let path = join_path(self.work_dir.as_str(), name);
        DeleteRequest { name: String::from_str(name), path }
    }

    /// The listing visible to callers: the given working-directory
    /// names with every reserved name (starting with `.`) removed, in
    /// the order given.
    pub fn list_entries(&self, names: &Vec<String>) -> (r: Vec<String>)
        ensures
            views_of(r@) == spec_visible(views_of(names@)),
            forall|k: int| 0 <= k < r@.len() ==> !spec_is_reserved(#[trigger] r@[k]@),
    {
        filter_visible(names)
    }
}

/// A create operation between its staging step and the editor run.
/// Dropping it on any path removes the plaintext staging file.
pub struct CreateSession {
    tmp: TempSlot,
    tmp_path: String,
    name: String,
    editor_argv: Vec<String>,
    gpg_bin: String,
    gpg_id_path: String,
    cipher_path: String,
}

impl CreateSession {
    /// The generated, timestamp-derived entry name.
    pub closed spec fn entry_name(&self) -> Seq<char> {
        self.name@
    }

    /// The plaintext staging file's path.
    pub closed spec fn tmp_loc(&self) -> Seq<char> {
        self.tmp_path@
    }

    /// The bytes in the staging file at hand-off.
    pub closed spec fn staged_bytes(&self) -> Seq<u8> {
        slot_bytes(self.tmp)
    }

    /// The working-directory path the ciphertext will be written to.
    pub closed spec fn cipher_loc(&self) -> Seq<char> {
        self.cipher_path@
    }

    /// The resolved cipher tool.
    pub closed spec fn gpg_view(&self) -> Seq<char> {
        self.gpg_bin@
    }

    /// The path of the recipient metadata file.
    pub closed spec fn id_path(&self) -> Seq<char> {
        self.gpg_id_path@
    }

    /// The editor command line to run.
    pub closed spec fn cmd_editor(&self) -> Seq<Seq<char>> {
        views_of(self.editor_argv@)
    }

    /// The editor command line to run against the staging file.
    pub fn editor_argv(&self) -> (r: &Vec<String>)
        ensures
            views_of(r@) == self.cmd_editor(),
    {
        &self.editor_argv
    }

    /// The path the caller reads the recipient identifier from.
    pub fn gpg_id_path(&self) -> (r: &String)
        ensures
            r@ == self.id_path(),
    {
        &self.gpg_id_path
    }

    /// The generated entry name.
    pub fn name(&self) -> (r: &String)
        ensures
            r@ == self.entry_name(),
    {
        &self.name
    }

    /// Continue after the editor ran and the recipient identifier was
    /// read: a failed editor surfaces as `ToolFailed` carrying its
    /// exit code, and a missing recipient as `NotFound` (both dropping
    /// the staging file); with both in hand the encrypt command line
    /// is built and the operation always proceeds.
    pub fn proceed(self, editor: RunOutcome, recipient: Option<String>) -> (r: Result<
        CreateCommit,
        DearyError,
    >)
        ensures
            !editor.success ==> r is Err && r->Err_0.kind == ErrorKind::ToolFailed
                && r->Err_0.status == editor.code,
            editor.success && recipient is None ==> r is Err && r->Err_0.kind
                == ErrorKind::NotFound,
            editor.success && recipient is Some ==> r is Ok,
            r is Ok ==> recipient is Some && r->Ok_0.entry_name() == self.entry_name()
                && r->Ok_0.cmd_encrypt() == spec_encrypt_argv(
                self.gpg_view(),
                recipient->0@,
                self.cipher_loc(),
                self.tmp_loc(),
            ),
    {
        if !editor.success {
            return Err(DearyError::tool_failed("editor exited unsuccessfully", editor.code));
        }
        let rec = match recipient {
            Some(s) => s,
            None => {
                return Err(
                    DearyError::with_kind(
                        ErrorKind::NotFound,
                        "the recipient metadata file is missing or unreadable",
                    ),
                );
            },
        };
        let argv = encrypt_command(
            self.gpg_bin.as_str(),
            rec.as_str(),
            self.cipher_path.as_str(),
            self.tmp_path.as_str(),
        );
        Ok(CreateCommit { tmp: self.tmp, name: self.name, encrypt_argv: argv })
    }
}

/// A create operation awaiting only the encryption outcome and the
/// commit. Dropping it removes the plaintext staging file.
pub struct CreateCommit {
    tmp: TempSlot,
    name: String,
    encrypt_argv: Vec<String>,
}

impl CreateCommit {
    /// The generated entry name.
    pub closed spec fn entry_name(&self) -> Seq<char> {
        self.name@
    }

    /// The encrypt command line to run.
    pub closed spec fn cmd_encrypt(&self) -> Seq<Seq<char>> {
        views_of(self.encrypt_argv@)
    }

    /// The encrypt command line to run.
    pub fn encrypt_argv(&self) -> (r: &Vec<String>)
        ensures
            views_of(r@) == self.cmd_encrypt(),
    {
        &self.encrypt_argv
    }

    /// Finish the create: only a successful encryption is committed —
    /// a failed one surfaces as `ToolFailed`, carrying its exit code,
    /// with the history exactly as it was. On success exactly the one
    /// `Add` commit for the new entry is recorded and its name
    /// returned. The staging file is dropped on every path.
    pub fn finish(self, deary: &mut Deary, encrypt: RunOutcome) -> (r: Result<String, DearyError>)
        requires
            old(deary).wf(),
        ensures
            final(deary).wf(),
            final(deary).same_setup(*old(deary)),
            !encrypt.success ==> r is Err && r->Err_0.kind == ErrorKind::ToolFailed
                && r->Err_0.status == encrypt.code,
            r is Ok ==> encrypt.success && r->Ok_0@ == self.entry_name() && final(deary).recorded(
                *old(deary),
                Change::Add,
                self.entry_name(),
            ),
            r is Ok && old(deary).synced() ==> final(deary).tracked_view() == old(deary).tracked_view().insert(self.entry_name()),
            r is Err ==> final(deary).unrecorded(*old(deary)) && (r->Err_0.kind
                == ErrorKind::ToolFailed || r->Err_0.kind == ErrorKind::StoreFailure),
            r is Err && old(deary).synced() ==> (final(deary).synced() || final(deary).staged_view() == old(deary).staged_view().insert(self.entry_name())),
    {
        if !encrypt.success {
            return Err(DearyError::tool_failed("encryption exited unsuccessfully", encrypt.code));
        }
        match commit_change(&mut deary.repo, self.name.as_str(), Change::Add, false) {
            Ok(()) => Ok(self.name),
            Err(e) => Err(e),
        }
    }
}

/// A read operation awaiting the decryption outcome.
pub struct ReadRequest {
    name: String,
    decrypt_argv: Vec<String>,
}

impl ReadRequest {
    /// The entry name being read.
    pub closed spec fn entry_name(&self) -> Seq<char> {
        self.name@
    }

    /// The decrypt command line to run.
    pub closed spec fn cmd_decrypt(&self) -> Seq<Seq<char>> {
        views_of(self.decrypt_argv@)
    }

    /// The decrypt command line to run.
    pub fn decrypt_argv(&self) -> (r: &Vec<String>)
        ensures
            views_of(r@) == self.cmd_decrypt(),
    {
        &self.decrypt_argv
    }

    /// Finish the read from the reported outcome: a missing ciphertext
    /// file is `NotFound`, a failing tool is `ToolFailed` carrying its
    /// exit code (never silently treated as empty content), and on
    /// success exactly the captured output bytes are returned.
    pub fn finish(self, found: bool, cipher: RunOutcome, output: Vec<u8>) -> (r: Result<
        Vec<u8>,
        DearyError,
    >)
        ensures
            !found ==> r is Err && r->Err_0.kind == ErrorKind::NotFound,
            found && !cipher.success ==> r is Err && r->Err_0.kind == ErrorKind::ToolFailed
                && r->Err_0.status == cipher.code,
            found && cipher.success ==> r is Ok && r->Ok_0@ == output@,
    {
        if !found {
            return Err(DearyError::with_kind(ErrorKind::NotFound, "no such entry"));
        }
        if !cipher.success {
            return Err(DearyError::tool_failed("decryption exited unsuccessfully", cipher.code));
        }
        Ok(output)
    }
}

/// An update operation awaiting the decryption of the existing entry.
pub struct UpdateRead {
    name: String,
    entry_path: String,
    decrypt_argv: Vec<String>,
    editor_bin: String,
    gpg_bin: String,
    gpg_id_path: String,
}

impl UpdateRead {
    /// The entry name being updated.
    pub closed spec fn entry_name(&self) -> Seq<char> {
        self.name@
    }

    /// The working-directory path of the entry's ciphertext.
    pub closed spec fn entry_loc(&self) -> Seq<char> {
        self.entry_path@
    }

    /// The decrypt command line to run.
    pub closed spec fn cmd_decrypt(&self) -> Seq<Seq<char>> {
        views_of(self.decrypt_argv@)
    }

    /// The resolved editor.
    pub closed spec fn editor_bin_view(&self) -> Seq<char> {
        self.editor_bin@
    }

    /// The resolved cipher tool.
    pub closed spec fn gpg_view(&self) -> Seq<char> {
        self.gpg_bin@
    }

    /// The path of the recipient metadata file.
    pub closed spec fn id_path(&self) -> Seq<char> {
        self.gpg_id_path@
    }

    /// The decrypt command line to run.
    pub fn decrypt_argv(&self) -> (r: &Vec<String>)
        ensures
            views_of(r@) == self.cmd_decrypt(),
    {
        &self.decrypt_argv
    }

    /// Continue after the decryption ran: a missing ciphertext is
    /// `NotFound`, a failing tool `ToolFailed` carrying its exit code;
    /// otherwise the decrypted plaintext — exactly it — is staged into
    /// a fresh temporary file and the editor command line is built.
    pub fn proceed(self, found: bool, cipher: RunOutcome, plaintext: &[u8]) -> (r: Result<
        UpdateEdit,
        DearyError,
    >)
        ensures
            !found ==> r is Err && r->Err_0.kind == ErrorKind::NotFound,
            found && !cipher.success ==> r is Err && r->Err_0.kind == ErrorKind::ToolFailed
                && r->Err_0.status == cipher.code,
            found && cipher.success && r is Err ==> r->Err_0.kind == ErrorKind::IoFailure,
            r is Ok ==> r->Ok_0.staged_bytes() == plaintext@,
            r is Ok ==> r->Ok_0.entry_name() == self.entry_name() && r->Ok_0.entry_loc()
                == self.entry_loc() && r->Ok_0.id_path() == self.id_path() && r->Ok_0.gpg_view()
                == self.gpg_view(),
            r is Ok ==> r->Ok_0.cmd_editor() == crate::tools::spec_editor_argv(
                self.editor_bin_view(),
                r->Ok_0.tmp_loc(),
            ),
    {
        if !found {
            return Err(DearyError::with_kind(ErrorKind::NotFound, "no such entry"));
        }
        if !cipher.success {
            return Err(DearyError::tool_failed("decryption exited unsuccessfully", cipher.code));
        }
        let mut slot = match temp_in("/dev/shm") {
            Ok(t) => t,
            Err(e) => { return Err(io_failure(&e)); },
        };
        match temp_write(&mut slot, plaintext) {
            Ok(()) => {},
            Err(e) => { return Err(io_failure(&e)); },
        }
        proof {
            assert(slot_bytes(slot) =~= plaintext@);
        }
        let tmp_path = temp_path(&slot);
        let editor_argv = editor_command(self.editor_bin.as_str(), tmp_path.as_str());
        Ok(
            UpdateEdit {
                tmp: slot,
                tmp_path,
                name: self.name,
                entry_path: self.entry_path,
                editor_argv,
                gpg_bin: self.gpg_bin,
                gpg_id_path: self.gpg_id_path,
            },
        )
    }
}

/// An update operation between its staging step and the editor run.
/// Dropping it on any path removes the plaintext staging file.
pub struct UpdateEdit {
    tmp: TempSlot,
    tmp_path: String,
    name: String,
    entry_path: String,
    editor_argv: Vec<String>,
    gpg_bin: String,
    gpg_id_path: String,
}

impl UpdateEdit {
    /// The entry name being updated.
    pub closed spec fn entry_name(&self) -> Seq<char> {
        self.name@
    }

    /// The working-directory path of the entry's ciphertext.
    pub closed spec fn entry_loc(&self) -> Seq<char> {
        self.entry_path@
    }

    /// The plaintext staging file's path.
    pub closed spec fn tmp_loc(&self) -> Seq<char> {
        self.tmp_path@
    }

    /// The bytes in the staging file at hand-off: the decrypted entry.
    pub closed spec fn staged_bytes(&self) -> Seq<u8> {
        slot_bytes(self.tmp)
    }

    /// The resolved cipher tool.
    pub closed spec fn gpg_view(&self) -> Seq<char> {
        self.gpg_bin@
    }

    /// The path of the recipient metadata file.
    pub closed spec fn id_path(&self) -> Seq<char> {
        self.gpg_id_path@
    }

    /// The editor command line to run.
    pub closed spec fn cmd_editor(&self) -> Seq<Seq<char>> {
        views_of(self.editor_argv@)
    }

    /// The editor command line to run.
    pub fn editor_argv(&self) -> (r: &Vec<String>)
        ensures
            views_of(r@) == self.cmd_editor(),
    {
        &self.editor_argv
    }

    /// The path the caller reads the recipient identifier from.
    pub fn gpg_id_path(&self) -> (r: &String)
        ensures
            r@ == self.id_path(),
    {
        &self.gpg_id_path
    }

    /// Continue after the editor ran and the recipient identifier was
    /// read, exactly as for a create: the re-encrypt command line
    /// targets the entry's existing path.
    pub fn proceed(self, editor: RunOutcome, recipient: Option<String>) -> (r: Result<
        UpdateCommit,
        DearyError,
    >)
        ensures
            !editor.success ==> r is Err && r->Err_0.kind == ErrorKind::ToolFailed
                && r->Err_0.status == editor.code,
            editor.success && recipient is None ==> r is Err && r->Err_0.kind
                == ErrorKind::NotFound,
            editor.success && recipient is Some ==> r is Ok,
            r is Ok ==> recipient is Some && r->Ok_0.entry_name() == self.entry_name()
                && r->Ok_0.cmd_encrypt() == spec_encrypt_argv(
                self.gpg_view(),
                recipient->0@,
                self.entry_loc(),
                self.tmp_loc(),
            ),
    {
        if !editor.success {
            return Err(DearyError::tool_failed("editor exited unsuccessfully", editor.code));
        }
        let rec = match recipient {
            Some(s) => s,
            None => {
                return Err(
                    DearyError::with_kind(
                        ErrorKind::NotFound,
                        "the recipient metadata file is missing or unreadable",
                    ),
                );
            },
        };
        let argv = encrypt_command(
            self.gpg_bin.as_str(),
            rec.as_str(),
            self.entry_path.as_str(),
            self.tmp_path.as_str(),
        );
        Ok(UpdateCommit { tmp: self.tmp, name: self.name, encrypt_argv: argv })
    }
}

/// An update operation awaiting only the encryption outcome and the
/// commit. Dropping it removes the plaintext staging file.
pub struct UpdateCommit {
    tmp: TempSlot,
    name: String,
    encrypt_argv: Vec<String>,
}

impl UpdateCommit {
    /// The entry name being updated.
    pub closed spec fn entry_name(&self) -> Seq<char> {
        self.name@
    }

    /// The encrypt command line to run.
    pub closed spec fn cmd_encrypt(&self) -> Seq<Seq<char>> {
        views_of(self.encrypt_argv@)
    }

    /// The encrypt command line to run.
    pub fn encrypt_argv(&self) -> (r: &Vec<String>)
        ensures
            views_of(r@) == self.cmd_encrypt(),
    {
        &self.encrypt_argv
    }

    /// Finish the update: only a successful re-encryption is
    /// committed — a failed one surfaces as `ToolFailed` carrying its
    /// exit code, with the history exactly as it was. On success
    /// exactly the one `Edit` commit for the entry is recorded. The
    /// staging file is dropped on every path.
    pub fn finish(self, deary: &mut Deary, encrypt: RunOutcome) -> (r: Result<(), DearyError>)
        requires
            old(deary).wf(),
        ensures
            final(deary).wf(),
            final(deary).same_setup(*old(deary)),
            !encrypt.success ==> r is Err && r->Err_0.kind == ErrorKind::ToolFailed
                && r->Err_0.status == encrypt.code,
            r is Ok ==> encrypt.success && final(deary).recorded(
                *old(deary),
                Change::Edit,
                self.entry_name(),
            ),
            r is Ok && old(deary).synced() ==> final(deary).tracked_view() == old(deary).tracked_view().insert(self.entry_name()),
            r is Err ==> final(deary).unrecorded(*old(deary)) && (r->Err_0.kind
                == ErrorKind::ToolFailed || r->Err_0.kind == ErrorKind::StoreFailure),
            r is Err && old(deary).synced() ==> (final(deary).synced() || final(deary).staged_view() == old(deary).staged_view().insert(self.entry_name())),
    {
        if !encrypt.success {
            return Err(DearyError::tool_failed("encryption exited unsuccessfully", encrypt.code));
        }
        match commit_change(&mut deary.repo, self.name.as_str(), Change::Edit, false) {
            Ok(()) => Ok(()),
            Err(e) => Err(e),
        }
    }
}

/// A delete operation awaiting the removal of the entry's file.
pub struct DeleteRequest {
    name: String,
    path: String,
}

impl DeleteRequest {
    /// The entry name being deleted.
    pub closed spec fn entry_name(&self) -> Seq<char> {
        self.name@
    }

    /// The working-directory file the caller must remove.
    pub closed spec fn target(&self) -> Seq<char> {
        self.path@
    }

    /// The working-directory file the caller must remove.
    pub fn target_path(&self) -> (r: &String)
        ensures
            r@ == self.target(),
    {
        &self.path
    }

    /// Finish the delete: when the file was not there the operation
    /// fails with `NotFound` and nothing is committed (never a silent
    /// no-op deletion); when it was removed, exactly the one `Delete`
    /// commit for the entry is recorded, dropping the file from the
    /// tracked snapshot.
    pub fn finish(self, deary: &mut Deary, removed: bool) -> (r: Result<(), DearyError>)
        requires
            old(deary).wf(),
        ensures
            final(deary).wf(),
            final(deary).same_setup(*old(deary)),
            !removed ==> r is Err && r->Err_0.kind == ErrorKind::NotFound,
            r is Ok ==> removed && final(deary).recorded(
                *old(deary),
                Change::Delete,
                self.entry_name(),
            ),
            r is Ok && old(deary).synced() ==> final(deary).tracked_view() == old(deary).tracked_view().remove(self.entry_name()),
            r is Err ==> final(deary).unrecorded(*old(deary)) && (r->Err_0.kind
                == ErrorKind::NotFound || r->Err_0.kind == ErrorKind::StoreFailure),
            r is Err && old(deary).synced() ==> (final(deary).synced() || final(deary).staged_view() == old(deary).staged_view().remove(self.entry_name())),
    {
        if !removed {
            return Err(DearyError::with_kind(ErrorKind::NotFound, "no such entry"));
        }
        match commit_change(&mut deary.repo, self.name.as_str(), Change::Delete, false) {
            Ok(()) => Ok(()),
            Err(e) => Err(e),
        }
    }
}

/// Law: a successfully recorded change appends exactly one commit —
/// the count grows by one, the new tip carries the change's message,
/// and every earlier commit is untouched, so the new commit's parent
/// is exactly the previous tip.
pub proof fn lemma_record_change_appends(h0: Seq<Seq<char>>, h1: Seq<Seq<char>>, m: Seq<char>)
    requires
        h1 == h0.push(m),
    ensures
        h1.len() == h0.len() + 1,
        h1.last() == m,
        forall|i: int| 0 <= i < h0.len() ==> h1[i] == h0[i],
{
}

} // verus!
