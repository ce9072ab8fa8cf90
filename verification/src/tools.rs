use vstd::prelude::*;

use crate::errors::{DearyError, ErrorKind};
use crate::names::{spec_trimmed, trim_text, views_of};

verus! {

/// The reported outcome of one external process run: whether it
/// exited successfully, and the exit code the system gave, when there
/// was one (a run that could not start, or that a signal ended, has
/// none).
#[derive(Clone, Copy)]
pub struct RunOutcome {
    pub success: bool,
    pub code: Option<i32>,
}

/// Relies on which::which: locates an executable through the system's
/// standard search path. `None` is also returned here when the located
/// path is not valid UTF-8.
#[verifier::external_body]
pub(crate) fn which_bin(name: &str) -> Option<String> {
    match which::which(name) {
        Ok(p) => match p.into_os_string().into_string() {
            Ok(s) => Some(s),
            Err(_) => None,
        },
        Err(_) => None,
    }
}

/// Relies on chrono::Utc::now and its formatting with
/// `%Y%m%d-%H%M%S`: the current UTC time to second precision. The
/// result depends on the clock, so only what holds of every outcome is
/// stated: the name is non-empty and never starts with a dot (the
/// year field opens with a digit or a sign).
#[verifier::external_body]
pub(crate) fn timestamp_name() -> (r: String)
    ensures
        r@.len() > 0,
        r@[0] != '.',
{
    chrono::Utc::now().format("%Y%m%d-%H%M%S").to_string()
}

/// Resolve the editor executable: the configured one when present,
/// otherwise `vim` looked up on the search path.
pub fn find_editor(editor: &Option<String>) -> (r: Result<String, DearyError>)
    ensures
        editor is Some ==> r is Ok && r->Ok_0@ == editor->0@,
        r is Err ==> r->Err_0.kind == ErrorKind::ToolNotFound && editor is None,
{
    match editor {
        Some(e) => Ok(e.clone()),
        None => match which_bin("vim") {
            Some(vim) => Ok(vim),
            None => Err(
                DearyError::with_kind(
                    ErrorKind::ToolNotFound,
                    "no editor is configured, and vim was not found in the search path",
                ),
            ),
        },
    }
}

/// Resolve the cipher executable `gpg` on the search path.
pub fn find_gpg() -> (r: Result<String, DearyError>)
    ensures
        r is Err ==> r->Err_0.kind == ErrorKind::ToolNotFound,
{
    match which_bin("gpg") {
        Some(gpg) => Ok(gpg),
        None => Err(
            DearyError::with_kind(
                ErrorKind::ToolNotFound,
                "gpg executable not found in the search path",
            ),
        ),
    }
}

/// The options passed to the cipher tool on every invocation: stay
/// quiet, overwrite existing output, disable compression (so that
/// ciphertext size does not leak compressibility), and never add the
/// caller's own key as a recipient.
pub open spec fn spec_gpg_base(gpg: Seq<char>) -> Seq<Seq<char>> {
    seq![gpg, "--quiet"@, "--yes"@, "--compress-algo=none"@, "--no-encrypt-to"@]
}

/// The full command line that decrypts the file at `path` to standard
/// output.
pub open spec fn spec_decrypt_argv(gpg: Seq<char>, path: Seq<char>) -> Seq<Seq<char>> {
    spec_gpg_base(gpg) + seq!["--decrypt"@, path]
}

/// The full command line that encrypts `input` into `out` for the
/// recipient, whose identifier is trimmed of surrounding white space.
pub open spec fn spec_encrypt_argv(
    gpg: Seq<char>,
    recipient: Seq<char>,
    out: Seq<char>,
    input: Seq<char>,
) -> Seq<Seq<char>> {
    spec_gpg_base(gpg) + seq![
        "--encrypt"@,
        "--recipient"@,
        spec_trimmed(recipient),
        "--output"@,
        out,
        input,
    ]
}

/// The command line that runs the editor on one file.
pub open spec fn spec_editor_argv(editor: Seq<char>, path: Seq<char>) -> Seq<Seq<char>> {
    seq![editor, path]
}

/// Build the decrypt command line.
pub fn decrypt_command(gpg: &str, path: &str) -> (r: Vec<String>)
    ensures
        views_of(r@) == spec_decrypt_argv(gpg@, path@),
{
    let mut v: Vec<String> = Vec::new();
    v.push(String::from_str(gpg));
    v.push(String::from_str("--quiet"));
    v.push(String::from_str("--yes"));
    v.push(String::from_str("--compress-algo=none"));
    v.push(String::from_str("--no-encrypt-to"));
    v.push(String::from_str("--decrypt"));
    v.push(String::from_str(path));
    proof {
        assert(views_of(v@) =~= spec_decrypt_argv(gpg@, path@));
    }
    v
}

/// Build the encrypt command line; the recipient identifier is trimmed
/// before use.
pub fn encrypt_command(gpg: &str, recipient: &str, out: &str, input: &str) -> (r: Vec<String>)
    ensures
        views_of(r@) == spec_encrypt_argv(gpg@, recipient@, out@, input@),
{
    let rec = trim_text(recipient);
    let mut v: Vec<String> = Vec::new();
    v.push(String::from_str(gpg));
    v.push(String::from_str("--quiet"));
    v.push(String::from_str("--yes"));
    v.push(String::from_str("--compress-algo=none"));
    v.push(String::from_str("--no-encrypt-to"));
    v.push(String::from_str("--encrypt"));
    v.push(String::from_str("--recipient"));
    v.push(rec);
    v.push(String::from_str("--output"));
    v.push(String::from_str(out));
    v.push(String::from_str(input));
    proof {
        assert(views_of(v@) =~= spec_encrypt_argv(gpg@, recipient@, out@, input@));
    }
    v
}

/// Build the editor command line.
pub fn editor_command(editor: &str, path: &str) -> (r: Vec<String>)
    ensures
        views_of(r@) == spec_editor_argv(editor@, path@),
{
    let mut v: Vec<String> = Vec::new();
    v.push(String::from_str(editor));
    v.push(String::from_str(path));
    proof {
        assert(views_of(v@) =~= spec_editor_argv(editor@, path@));
    }
    v
}

} // verus!
