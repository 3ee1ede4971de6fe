//! The startup-file hook, and the lines the hook itself prints.

use vstd::prelude::*;

use crate::env::{opt_view, resolve_dotfiles_dir, resolved_dir_spec};
use crate::error::DotfilesError;
use crate::shell::{is_unsupported, parse_shell_name, shell_name, Shell};
use crate::text::{seq_contains, str_contains};

verus! {

/// The text whose presence in a startup file means the hook is installed.
pub open spec fn hook_marker() -> Seq<char> {
    "eval \"$(dotfiles hook"@
}

/// The activation line for a shell.
pub open spec fn hook_line_spec(shell: Shell) -> Seq<char> {
    hook_marker() + " --shell "@ + shell_name(shell) + ")\""@
}

/// The activation line for `shell`.
pub fn hook_line(shell: &Shell) -> (r: String)
    ensures
        r@ == hook_line_spec(*shell),
{
    let mut r = String::from_str("eval \"$(dotfiles hook");
    r.append(" --shell ");
    r.append(shell.as_str());
    r.append(")\"");
    r
}

/// Whether a startup file's content already holds the hook.
pub fn is_dotfiles_configured(content: &str) -> (r: bool)
    ensures
        r == seq_contains(content@, hook_marker()),
{
    str_contains(content, "eval \"$(dotfiles hook")
}

/// What installing the hook does to a startup file.
#[derive(Debug, Clone, PartialEq, Eq)]
pub enum HookEdit {
    /// The hook is there already; the file is left alone.
    AlreadyPresent,
    /// The file is to be rewritten with this content.
    Insert(String),
}

/// The observable result of installing the hook.
#[derive(Debug, Clone, Copy, PartialEq, Eq, Structural)]
pub enum HookOutcome {
    AlreadyPresent,
    Inserted,
}

impl HookEdit {
    /// Whether the edit writes the file.
    pub fn outcome(&self) -> (r: HookOutcome)
        ensures
            (r == HookOutcome::AlreadyPresent) == (*self is AlreadyPresent),
    {
        match self {
            HookEdit::AlreadyPresent => HookOutcome::AlreadyPresent,
            HookEdit::Insert(_) => HookOutcome::Inserted,
        }
    }
}

/// The new content of a startup file once the hook is prepended, or `None`
/// when the hook is already there. An empty file gets the line alone; any
/// other gets the line, a blank line, then its content verbatim.
pub open spec fn hooked_content(content: Seq<char>, shell: Shell) -> Option<Seq<char>> {
    if seq_contains(content, hook_marker()) {
        None
    } else if content.len() == 0 {
        Some(hook_line_spec(shell) + "\n"@)
    } else {
        Some(hook_line_spec(shell) + "\n\n"@ + content)
    }
}

/// `e` is the edit that `hooked_content` describes.
pub open spec fn edit_matches(e: HookEdit, want: Option<Seq<char>>) -> bool {
    match want {
        None => e is AlreadyPresent,
        Some(c) => e matches HookEdit::Insert(s) && s@ == c,
    }
}

/// Decides how to install the hook into a startup file whose current content
/// is `content` (empty for a file that does not exist yet).
pub fn prepend_hook_to_config(content: &str, shell: &Shell) -> (r: HookEdit)
    ensures
        edit_matches(r, hooked_content(content@, *shell)),
{
    if is_dotfiles_configured(content) {
        return HookEdit::AlreadyPresent;
    }
    let mut out = hook_line(shell);
    if content.unicode_len() == 0 {
        out.append("\n");
    } else {
        out.append("\n\n");
        out.append(content);
    }
    HookEdit::Insert(out)
}

/// Installing the hook a second time, into the content the first install
/// wrote, leaves the file alone.
pub proof fn lemma_hook_idempotent(content: Seq<char>, shell: Shell)
    ensures
        hooked_content(content, shell) matches Some(c) ==> hooked_content(c, shell) is None,
{
    if let Some(c) = hooked_content(content, shell) {
        let m = hook_marker();
        assert(c.subrange(0, 0 + m.len() as int) =~= m);
        assert(seq_contains(c, m));
    }
}

/// The two lines the `hook` command prints for a tracked-files directory.
pub open spec fn shell_config_spec(dir: Seq<char>) -> Seq<char> {
    "export DOTFILES_DIR=\""@ + dir + "\"\n"@ + "source \"$DOTFILES_DIR/shell/hook.sh\"\n"@
}

/// The lines that point a shell at the tracked-files directory `dir`.
pub fn generate_shell_config(dir: &str) -> (r: String)
    ensures
        r@ == shell_config_spec(dir@),
{
    let mut r = String::from_str("export DOTFILES_DIR=\"");
    r.append(dir);
    r.append("\"\n");
    r.append("source \"$DOTFILES_DIR/shell/hook.sh\"\n");
    r
}

/// The output of the `hook` command for the shell named `shell`, given the
/// override variable and the home directory as the environment holds them.
/// Only "zsh" and "bash" are accepted.
pub fn hook(shell: &str, dir_override: Option<String>, home: Option<String>) -> (r: Result<
    String,
    DotfilesError,
>)
    ensures
        shell@ == "zsh"@ || shell@ == "bash"@ ==> (r matches Ok(out) && out@ == shell_config_spec(
            resolved_dir_spec(opt_view(dir_override), opt_view(home)),
        )),
        shell@ != "zsh"@ && shell@ != "bash"@ ==> (r matches Err(e) && is_unsupported(e, shell@)),
{
    match parse_shell_name(shell) {
        Ok(_) => {
            let dir = resolve_dotfiles_dir(dir_override, home);
            Ok(generate_shell_config(dir.as_str()))
        },
        Err(e) => Err(e),
    }
}

} // verus!
