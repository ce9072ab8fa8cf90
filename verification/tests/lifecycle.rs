use deary::tools::RunOutcome;
use deary::{Deary, ErrorKind};
use std::io::Write;
use std::path::{Path, PathBuf};

fn ran_ok() -> RunOutcome {
    RunOutcome { success: true, code: Some(0) }
}

fn ran_failed(code: i32) -> RunOutcome {
    RunOutcome { success: false, code: Some(code) }
}

fn author_config() -> Vec<(String, String)> {
    vec![
        ("user.name".to_string(), "noname".to_string()),
        ("user.email".to_string(), "noemail".to_string()),
    ]
}

fn commit_count(path: &Path) -> usize {
    let repo = git2::Repository::open(path).unwrap();
    let mut walk = repo.revwalk().unwrap();
    walk.push_head().unwrap();
    walk.count()
}

fn head_message(path: &Path) -> String {
    let repo = git2::Repository::open(path).unwrap();
    let commit = repo.head().unwrap().peel_to_commit().unwrap();
    commit.message().unwrap().to_string()
}

fn head_author(path: &Path) -> (String, String) {
    let repo = git2::Repository::open(path).unwrap();
    let commit = repo.head().unwrap().peel_to_commit().unwrap();
    let author = commit.author();
    (
        author.name().unwrap().to_string(),
        author.email().unwrap().to_string(),
    )
}

fn head_tree_names(path: &Path) -> Vec<String> {
    let repo = git2::Repository::open(path).unwrap();
    let commit = repo.head().unwrap().peel_to_commit().unwrap();
    let tree = commit.tree().unwrap();
    let mut names = Vec::new();
    for entry in tree.iter() {
        names.push(entry.name().unwrap().to_string());
    }
    names
}

fn blob_content(path: &Path, name: &str) -> Vec<u8> {
    let repo = git2::Repository::open(path).unwrap();
    let commit = repo.head().unwrap().peel_to_commit().unwrap();
    let tree = commit.tree().unwrap();
    let entry = tree.get_name(name).unwrap();
    let obj = entry.to_object(&repo).unwrap();
    obj.as_blob().unwrap().content().to_vec()
}

fn write_file(dest: &Path, bytes: &[u8]) {
    let dir = dest.parent().unwrap();
    let mut f = tempfile::NamedTempFile::new_in(dir).unwrap();
    f.write_all(bytes).unwrap();
    f.persist(dest).unwrap();
}

fn remove_file_scoped(dest: &Path) {
    let owned = tempfile::TempPath::try_from_path(dest).unwrap();
    drop(owned);
}

fn fresh_repo(tmp: &tempfile::TempDir) -> (PathBuf, Deary) {
    let repo_path = tmp.path().join("repo");
    let d = Deary::init(
        repo_path.to_str().unwrap(),
        "test@example.com",
        &author_config(),
        repo_path.exists(),
    )
    .unwrap();
    (repo_path, d)
}

/// Drive one create through the engine, standing in for the editor
/// and the cipher tool: the "ciphertext" written into the working
/// directory is just the given bytes.
fn simulated_create(d: &mut Deary, content: &[u8]) -> String {
    let session = d.create_entry().unwrap();
    let commit = session
        .proceed(ran_ok(), Some("test@example.com".to_string()))
        .unwrap();
    let out = commit.encrypt_argv()[9].clone();
    write_file(Path::new(&out), content);
    commit.finish(d, ran_ok()).unwrap()
}

/// Drive one read through the engine, standing in for the cipher
/// tool, whose output for the simulated ciphertext is the file's own
/// bytes.
fn simulated_read(d: &Deary, name: &str, repo_path: &Path) -> Result<Vec<u8>, deary::DearyError> {
    let request = d.read_entry(name).unwrap();
    let entry = repo_path.join(name);
    let found = entry.exists();
    let output = if found { blob_like(&entry) } else { Vec::new() };
    request.finish(found, ran_ok(), output)
}

/// The working-directory file's bytes, read back through the version
/// store (the last committed state equals the on-disk state between
/// operations).
fn blob_like(entry: &Path) -> Vec<u8> {
    let repo_path = entry.parent().unwrap();
    let name = entry.file_name().unwrap().to_str().unwrap();
    blob_content(repo_path, name)
}

#[test]
fn initialize_writes_recipient_and_one_commit() {
    let tmp = tempfile::tempdir().unwrap();
    let (repo_path, d) = fresh_repo(&tmp);
    assert_eq!(commit_count(&repo_path), 1);
    assert_eq!(head_message(&repo_path), "Add .gpg_id");
    assert_eq!(head_tree_names(&repo_path), vec![".gpg_id".to_string()]);
    assert_eq!(blob_content(&repo_path, ".gpg_id"), b"test@example.com".to_vec());
    assert!(repo_path.join(".gpg_id").exists());
    let wd = d.work_dir();
    assert!(Path::new(&wd).join(".gpg_id").exists());
    assert_eq!(d.gpg_id_path(), Path::new(&wd).join(".gpg_id").to_str().unwrap());
}

#[test]
fn initialize_applies_the_author_configuration() {
    let tmp = tempfile::tempdir().unwrap();
    let (repo_path, _d) = fresh_repo(&tmp);
    assert_eq!(
        head_author(&repo_path),
        ("noname".to_string(), "noemail".to_string()),
    );
}

#[test]
fn create_adds_entry_and_second_commit() {
    let tmp = tempfile::tempdir().unwrap();
    let (repo_path, mut d) = fresh_repo(&tmp);
    let name = simulated_create(&mut d, b"hello");
    assert!(!name.starts_with('.'));
    assert_eq!(name.len(), 15);
    assert_eq!(name.as_bytes()[8], b'-');
    assert_eq!(commit_count(&repo_path), 2);
    assert_eq!(head_message(&repo_path), format!("Add {}", name));
    assert!(repo_path.join(&name).exists());
    let text = simulated_read(&d, &name, &repo_path).unwrap();
    assert_eq!(text, b"hello".to_vec());
}

#[test]
fn update_keeps_name_and_adds_third_commit() {
    let tmp = tempfile::tempdir().unwrap();
    let (repo_path, mut d) = fresh_repo(&tmp);
    let name = simulated_create(&mut d, b"hello");

    let read_step = d.update_entry(&name).unwrap();
    let entry = repo_path.join(&name);
    let edit_step = read_step.proceed(entry.exists(), ran_ok(), b"hello").unwrap();
    let commit_step = edit_step
        .proceed(ran_ok(), Some("test@example.com".to_string()))
        .unwrap();
    let out = commit_step.encrypt_argv()[9].clone();
    assert_eq!(out, entry.to_str().unwrap());
    write_file(Path::new(&out), b"hello v2");
    commit_step.finish(&mut d, ran_ok()).unwrap();

    assert_eq!(commit_count(&repo_path), 3);
    assert_eq!(head_message(&repo_path), format!("Edit {}", name));
    assert_eq!(
        head_tree_names(&repo_path),
        vec![".gpg_id".to_string(), name.clone()],
    );
    let text = simulated_read(&d, &name, &repo_path).unwrap();
    assert_eq!(text, b"hello v2".to_vec());
}

#[test]
fn delete_removes_file_and_adds_fourth_commit() {
    let tmp = tempfile::tempdir().unwrap();
    let (repo_path, mut d) = fresh_repo(&tmp);
    let name = simulated_create(&mut d, b"hello");

    let read_step = d.update_entry(&name).unwrap();
    let entry = repo_path.join(&name);
    let edit_step = read_step.proceed(entry.exists(), ran_ok(), b"hello").unwrap();
    let commit_step = edit_step
        .proceed(ran_ok(), Some("test@example.com".to_string()))
        .unwrap();
    write_file(&entry, b"hello v2");
    commit_step.finish(&mut d, ran_ok()).unwrap();

    let request = d.delete_entry(&name);
    let target = request.target_path().clone();
    remove_file_scoped(Path::new(&target));
    let removed = !Path::new(&target).exists();
    request.finish(&mut d, removed).unwrap();

    assert!(!repo_path.join(&name).exists());
    assert_eq!(commit_count(&repo_path), 4);
    assert_eq!(head_message(&repo_path), format!("Delete {}", name));
    assert_eq!(head_tree_names(&repo_path), vec![".gpg_id".to_string()]);

    let request = d.read_entry(&name).unwrap();
    let err = request
        .finish(repo_path.join(&name).exists(), ran_ok(), Vec::new())
        .unwrap_err();
    assert_eq!(err.kind(), ErrorKind::NotFound);
}

#[test]
fn opening_an_invalid_repository_fails_before_any_step() {
    let tmp = tempfile::tempdir().unwrap();
    let missing = tmp.path().join("nothing-here");
    let err = match Deary::new(missing.to_str().unwrap(), None) {
        Ok(_) => panic!("opening a missing path must fail"),
        Err(e) => e,
    };
    assert_eq!(err.kind(), ErrorKind::NotFound);

    let plain = tempfile::tempdir_in(tmp.path()).unwrap();
    let err = match Deary::new(plain.path().to_str().unwrap(), None) {
        Ok(_) => panic!("opening a plain directory must fail"),
        Err(e) => e,
    };
    assert_eq!(err.kind(), ErrorKind::NotFound);
}

#[test]
fn initialize_over_existing_repository_fails_and_preserves_it() {
    let tmp = tempfile::tempdir().unwrap();
    let (repo_path, _d) = fresh_repo(&tmp);
    let err = match Deary::init(
        repo_path.to_str().unwrap(),
        "other@example.com",
        &author_config(),
        repo_path.exists(),
    ) {
        Ok(_) => panic!("initializing twice must fail"),
        Err(e) => e,
    };
    assert_eq!(err.kind(), ErrorKind::AlreadyExists);
    assert_eq!(commit_count(&repo_path), 1);
    assert_eq!(blob_content(&repo_path, ".gpg_id"), b"test@example.com".to_vec());
}

#[test]
fn initialize_over_a_conflicting_directory_fails() {
    let tmp = tempfile::tempdir().unwrap();
    let plain = tempfile::tempdir_in(tmp.path()).unwrap();
    write_file(&plain.path().join("occupant"), b"x");
    let err = match Deary::init(
        plain.path().to_str().unwrap(),
        "test@example.com",
        &author_config(),
        plain.path().exists(),
    ) {
        Ok(_) => panic!("initializing over an occupied directory must fail"),
        Err(e) => e,
    };
    assert_eq!(err.kind(), ErrorKind::AlreadyExists);
    assert!(plain.path().join("occupant").exists());
}

#[test]
fn configured_editor_reaches_the_editor_command() {
    let tmp = tempfile::tempdir().unwrap();
    let (repo_path, _d) = fresh_repo(&tmp);
    let d = Deary::new(repo_path.to_str().unwrap(), Some("my-editor".to_string())).unwrap();
    let session = d.create_entry().unwrap();
    let argv = session.editor_argv().clone();
    assert_eq!(argv.len(), 2);
    assert_eq!(argv[0], "my-editor");
}

#[test]
fn unconfigured_tools_are_resolved_on_the_search_path() {
    let tmp = tempfile::tempdir().unwrap();
    let (_repo_path, d) = fresh_repo(&tmp);
    let session = d.create_entry().unwrap();
    assert!(session.editor_argv()[0].ends_with("vim"));
    let commit = session
        .proceed(ran_ok(), Some("test@example.com".to_string()))
        .unwrap();
    assert!(commit.encrypt_argv()[0].ends_with("gpg"));
}

#[test]
fn failed_editor_aborts_create_without_commit() {
    let tmp = tempfile::tempdir().unwrap();
    let (repo_path, d) = fresh_repo(&tmp);
    let session = d.create_entry().unwrap();
    let err = match session.proceed(ran_failed(5), None) {
        Ok(_) => panic!("a failed editor must abort the create"),
        Err(e) => e,
    };
    assert_eq!(err.kind(), ErrorKind::ToolFailed);
    assert_eq!(err.status(), Some(5));
    assert_eq!(commit_count(&repo_path), 1);
}

#[test]
fn missing_recipient_aborts_create_without_commit() {
    let tmp = tempfile::tempdir().unwrap();
    let (repo_path, d) = fresh_repo(&tmp);
    let session = d.create_entry().unwrap();
    let err = match session.proceed(ran_ok(), None) {
        Ok(_) => panic!("a missing recipient must abort the create"),
        Err(e) => e,
    };
    assert_eq!(err.kind(), ErrorKind::NotFound);
    assert_eq!(err.status(), None);
    assert_eq!(commit_count(&repo_path), 1);
}

#[test]
fn failed_encryption_aborts_create_without_commit() {
    let tmp = tempfile::tempdir().unwrap();
    let (repo_path, mut d) = fresh_repo(&tmp);
    let session = d.create_entry().unwrap();
    let commit = session
        .proceed(ran_ok(), Some("test@example.com".to_string()))
        .unwrap();
    let err = commit.finish(&mut d, ran_failed(2)).unwrap_err();
    assert_eq!(err.kind(), ErrorKind::ToolFailed);
    assert_eq!(err.status(), Some(2));
    assert_eq!(commit_count(&repo_path), 1);
}

#[test]
fn failed_decryption_aborts_read_with_its_status() {
    let tmp = tempfile::tempdir().unwrap();
    let (repo_path, mut d) = fresh_repo(&tmp);
    let name = simulated_create(&mut d, b"hello");
    let request = d.read_entry(&name).unwrap();
    let err = request
        .finish(repo_path.join(&name).exists(), ran_failed(9), Vec::new())
        .unwrap_err();
    assert_eq!(err.kind(), ErrorKind::ToolFailed);
    assert_eq!(err.status(), Some(9));
}

#[test]
fn missing_ciphertext_fails_the_commit_and_preserves_history() {
    let tmp = tempfile::tempdir().unwrap();
    let (repo_path, mut d) = fresh_repo(&tmp);
    let session = d.create_entry().unwrap();
    let commit = session
        .proceed(ran_ok(), Some("test@example.com".to_string()))
        .unwrap();
    // the cipher tool claims success but wrote nothing: staging the
    // missing file fails and the history must not move
    let err = commit.finish(&mut d, ran_ok()).unwrap_err();
    assert_eq!(err.kind(), ErrorKind::StoreFailure);
    assert_eq!(commit_count(&repo_path), 1);
    // the stage was left clean: the next operation commits only its
    // own change
    let name = simulated_create(&mut d, b"later");
    assert_eq!(commit_count(&repo_path), 2);
    assert_eq!(
        head_tree_names(&repo_path),
        vec![".gpg_id".to_string(), name],
    );
}

#[test]
fn deleting_a_missing_entry_is_not_found() {
    let tmp = tempfile::tempdir().unwrap();
    let (repo_path, mut d) = fresh_repo(&tmp);
    let request = d.delete_entry("20200101-010101");
    let target = request.target_path().clone();
    assert!(!Path::new(&target).exists());
    let err = request.finish(&mut d, false).unwrap_err();
    assert_eq!(err.kind(), ErrorKind::NotFound);
    assert_eq!(commit_count(&repo_path), 1);
}

#[test]
fn listing_filters_reserved_names_from_directory_contents() {
    let tmp = tempfile::tempdir().unwrap();
    let (_repo_path, mut d) = fresh_repo(&tmp);
    let name = simulated_create(&mut d, b"hello");
    // stand in for the directory enumeration the calling layer does
    let raw = vec![".git".to_string(), ".gpg_id".to_string(), name.clone()];
    let visible = d.list_entries(&raw);
    assert_eq!(visible, vec![name]);
}

#[test]
fn failed_commit_restores_the_stage() {
    let tmp = tempfile::tempdir().unwrap();
    let repo_path = tmp.path().join("unborn");
    git2::Repository::init(&repo_path).unwrap();
    let mut d = Deary::new(repo_path.to_str().unwrap(), Some("my-editor".to_string())).unwrap();
    let session = d.create_entry().unwrap();
    let commit = session
        .proceed(ran_ok(), Some("test@example.com".to_string()))
        .unwrap();
    let out = commit.encrypt_argv()[9].clone();
    write_file(Path::new(&out), b"bytes");
    // recording on a repository that never got its initial commit
    // must fail — and must sweep the staged entry back out
    let err = commit.finish(&mut d, ran_ok()).unwrap_err();
    assert_eq!(err.kind(), ErrorKind::StoreFailure);
    let repo = git2::Repository::open(&repo_path).unwrap();
    assert_eq!(repo.index().unwrap().len(), 0);
}
