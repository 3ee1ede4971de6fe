//! Which shell the user runs, and which startup file it reads.

use vstd::prelude::*;

use crate::error::DotfilesError;
use crate::text::{join_path, join_spec, seq_contains, str_contains, str_equal};

verus! {

/// The shells whose startup file can carry the hook.
#[derive(Debug, Clone, Copy, PartialEq, Eq, Structural)]
pub enum Shell {
    Zsh,
    Bash,
}

/// The canonical name of a shell.
pub open spec fn shell_name(s: Shell) -> Seq<char> {
    match s {
        Shell::Zsh => "zsh"@,
        Shell::Bash => "bash"@,
    }
}

/// The startup files a shell reads, most preferred first.
pub open spec fn candidate_names(s: Shell) -> Seq<Seq<char>> {
    match s {
        Shell::Zsh => seq![".zshrc"@],
        Shell::Bash => seq![".bashrc"@, ".bash_profile"@, ".profile"@],
    }
}

/// `r` is the error that reports `value` as an unsupported shell.
pub open spec fn is_unsupported(r: DotfilesError, value: Seq<char>) -> bool {
    r matches DotfilesError::UnsupportedShell(v) && v@ == value
}

impl Shell {
    /// The canonical name of this shell.
    pub fn as_str(&self) -> (r: &'static str)
        ensures
            r@ == shell_name(*self),
    {
        match self {
            Shell::Zsh => "zsh",
            Shell::Bash => "bash",
        }
    }
}

/// The shell named by a login-shell path: zsh when the path mentions "zsh",
/// else bash when it mentions "bash"; any other path is unsupported.
pub fn detect_shell(shell_path: &str) -> (r: Result<Shell, DotfilesError>)
    ensures
        seq_contains(shell_path@, "zsh"@) ==> r == Ok::<Shell, DotfilesError>(Shell::Zsh),
        !seq_contains(shell_path@, "zsh"@) && seq_contains(shell_path@, "bash"@) ==> r == Ok::<
            Shell,
            DotfilesError,
        >(Shell::Bash),
        !seq_contains(shell_path@, "zsh"@) && !seq_contains(shell_path@, "bash"@) ==> (r matches Err(
            e,
        ) && is_unsupported(e, shell_path@)),
{
    if str_contains(shell_path, "zsh") {
        Ok(Shell::Zsh)
    } else if str_contains(shell_path, "bash") {
        Ok(Shell::Bash)
    } else {
        Err(DotfilesError::UnsupportedShell(String::from_str(shell_path)))
    }
}

/// The shell with exactly the given name; only "zsh" and "bash" are known.
pub fn parse_shell_name(name: &str) -> (r: Result<Shell, DotfilesError>)
    ensures
        name@ == "zsh"@ ==> r == Ok::<Shell, DotfilesError>(Shell::Zsh),
        name@ == "bash"@ ==> r == Ok::<Shell, DotfilesError>(Shell::Bash),
        name@ != "zsh"@ && name@ != "bash"@ ==> (r matches Err(e) && is_unsupported(e, name@)),
{
    proof {
        reveal_strlit("zsh");
        reveal_strlit("bash");
        assert("zsh"@.len() != "bash"@.len());
    }
    if str_equal(name, "zsh") {
        Ok(Shell::Zsh)
    } else if str_equal(name, "bash") {
        Ok(Shell::Bash)
    } else {
        Err(DotfilesError::UnsupportedShell(String::from_str(name)))
    }
}

/// The full paths of a shell's candidate startup files under `home`, most
/// preferred first.
pub fn candidate_paths(shell: &Shell, home: &str) -> (r: Vec<String>)
    ensures
        r@.len() == candidate_names(*shell).len(),
        forall|i: int|
            0 <= i < r@.len() ==> #[trigger] r@[i]@ == join_spec(home@, candidate_names(*shell)[i]),
{
    let mut r: Vec<String> = Vec::new();
    match shell {
        Shell::Zsh => {
            r.push(join_path(home, ".zshrc"));
        },
        Shell::Bash => {
            r.push(join_path(home, ".bashrc"));
            r.push(join_path(home, ".bash_profile"));
            r.push(join_path(home, ".profile"));
        },
    }
    r
}

/// The position of the first `true` in `exists`, when there is one.
pub open spec fn first_existing(exists: Seq<bool>) -> int {
    choose|k: int| 0 <= k < exists.len() && exists[k] && forall|j: int| 0 <= j < k ==> !exists[j]
}

/// The startup file chosen for a shell, given which of its candidates exist
/// (`exists[i]` for the i-th candidate): the first one that exists, or the
/// primary candidate when none does.
pub open spec fn config_path_spec(shell: Shell, home: Seq<char>, exists: Seq<bool>) -> Seq<char> {
    let names = candidate_names(shell);
    if exists.contains(true) {
        join_spec(home, names[first_existing(exists)])
    } else {
        join_spec(home, names[0])
    }
}

/// Picks the startup file of `shell` under `home`: the first candidate that
/// exists, else the primary one (which is not created here).
pub fn get_shell_config_path(shell: &Shell, home: &str, exists: &Vec<bool>) -> (r: String)
    requires
        exists@.len() == candidate_names(*shell).len(),
    ensures
        r@ == config_path_spec(*shell, home@, exists@),
{
    let paths = candidate_paths(shell, home);
    let mut i: usize = 0;
    while i < exists.len()
        invariant
            paths@.len() == exists@.len(),
            exists@.len() == candidate_names(*shell).len(),
            forall|k: int|
                0 <= k < paths@.len() ==> #[trigger] paths@[k]@ == join_spec(
                    home@,
                    candidate_names(*shell)[k],
                ),
            i <= exists@.len(),
            forall|k: int| 0 <= k < i ==> !exists@[k],
        decreases exists@.len() - i,
    {
        if exists[i] {
            assert(exists@.contains(true));
            assert(first_existing(exists@) == i) by {
                let k = first_existing(exists@);
                assert(exists@[i as int]);
                assert(0 <= k < exists@.len() && exists@[k]);
                if k < i {
                    assert(!exists@[k]);
                } else if k > i {
                    assert(!exists@[i as int]);
                }
            }
            return paths[i].clone();
        }
        i = i + 1;
    }
    assert(!exists@.contains(true));
    paths[0].clone()
}

} // verus!
