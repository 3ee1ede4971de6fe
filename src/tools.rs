//! The fixed set of developer tools, and the decisions of the workflow that
//! installs the missing ones. Checking for a program and running an install
//! command are left to the caller, which reports back through `ToolEvent`.

use vstd::prelude::*;

use crate::error::DotfilesError;

verus! {

/// The program that installs a tool.
#[derive(Debug, Clone, Copy, PartialEq, Eq, Structural)]
pub enum PackageManager {
    Cargo,
    Brew,
}

/// The command name of a package manager.
pub open spec fn manager_program(m: PackageManager) -> Seq<char> {
    match m {
        PackageManager::Cargo => "cargo"@,
        PackageManager::Brew => "brew"@,
    }
}

impl PackageManager {
    /// The command that runs this package manager.
    pub fn program(&self) -> (r: &'static str)
        ensures
            r@ == manager_program(*self),
    {
        match self {
            PackageManager::Cargo => "cargo",
            PackageManager::Brew => "brew",
        }
    }
}

/// One of the registered tools.
#[derive(Debug, Clone, Copy, PartialEq, Eq, Structural)]
pub enum Tool {
    Eza(Eza),
    Ripgrep(Ripgrep),
    Fd(Fd),
    Neovim(Neovim),
}

/// The `eza` file lister.
#[derive(Debug, Clone, Copy, PartialEq, Eq, Structural)]
pub struct Eza;

/// The `rg` searcher.
#[derive(Debug, Clone, Copy, PartialEq, Eq, Structural)]
pub struct Ripgrep;

/// The `fd` file finder.
#[derive(Debug, Clone, Copy, PartialEq, Eq, Structural)]
pub struct Fd;

/// The `nvim` editor.
#[derive(Debug, Clone, Copy, PartialEq, Eq, Structural)]
pub struct Neovim;

/// The command a tool provides.
pub open spec fn tool_name(t: Tool) -> Seq<char> {
    match t {
        Tool::Eza(_) => "eza"@,
        Tool::Ripgrep(_) => "rg"@,
        Tool::Fd(_) => "fd"@,
        Tool::Neovim(_) => "nvim"@,
    }
}

/// The package that provides a tool.
pub open spec fn tool_package(t: Tool) -> Seq<char> {
    match t {
        Tool::Eza(_) => "eza"@,
        Tool::Ripgrep(_) => "ripgrep"@,
        Tool::Fd(_) => "fd-find"@,
        Tool::Neovim(_) => "nvim"@,
    }
}

/// The package manager that installs a tool.
pub open spec fn tool_manager(t: Tool) -> PackageManager {
    match t {
        Tool::Neovim(_) => PackageManager::Brew,
        _ => PackageManager::Cargo,
    }
}

/// A tool that can be checked for and installed.
pub trait ToolInstaller {
    /// Which registered tool this is.
    spec fn spec_tool(&self) -> Tool;

    /// The command the tool provides, looked up to tell whether it is installed.
    fn name(&self) -> (r: &'static str)
        ensures
            r@ == tool_name(self.spec_tool()),
    ;

    /// The package that provides the tool.
    fn package(&self) -> (r: &'static str)
        ensures
            r@ == tool_package(self.spec_tool()),
    ;

    /// The package manager that installs it.
    fn manager(&self) -> (r: PackageManager)
        ensures
            r == tool_manager(self.spec_tool()),
    ;
}

impl ToolInstaller for Eza {
    open spec fn spec_tool(&self) -> Tool {
        Tool::Eza(*self)
    }

    fn name(&self) -> &'static str {
        "eza"
    }

    fn package(&self) -> &'static str {
        "eza"
    }

    fn manager(&self) -> PackageManager {
        PackageManager::Cargo
    }
}

impl ToolInstaller for Ripgrep {
    open spec fn spec_tool(&self) -> Tool {
        Tool::Ripgrep(*self)
    }

    fn name(&self) -> &'static str {
        "rg"
    }

    fn package(&self) -> &'static str {
        "ripgrep"
    }

    fn manager(&self) -> PackageManager {
        PackageManager::Cargo
    }
}

impl ToolInstaller for Fd {
    open spec fn spec_tool(&self) -> Tool {
        Tool::Fd(*self)
    }

    fn name(&self) -> &'static str {
        "fd"
    }

    fn package(&self) -> &'static str {
        "fd-find"
    }

    fn manager(&self) -> PackageManager {
        PackageManager::Cargo
    }
}

impl ToolInstaller for Neovim {
    open spec fn spec_tool(&self) -> Tool {
        Tool::Neovim(*self)
    }

    fn name(&self) -> &'static str {
        "nvim"
    }

    fn package(&self) -> &'static str {
        "nvim"
    }

    fn manager(&self) -> PackageManager {
        PackageManager::Brew
    }
}

impl ToolInstaller for Tool {
    open spec fn spec_tool(&self) -> Tool {
        *self
    }

    fn name(&self) -> &'static str {
        match self {
            Tool::Eza(t) => t.name(),
            Tool::Ripgrep(t) => t.name(),
            Tool::Fd(t) => t.name(),
            Tool::Neovim(t) => t.name(),
        }
    }

    fn package(&self) -> &'static str {
        match self {
            Tool::Eza(t) => t.package(),
            Tool::Ripgrep(t) => t.package(),
            Tool::Fd(t) => t.package(),
            Tool::Neovim(t) => t.package(),
        }
    }

    fn manager(&self) -> PackageManager {
        match self {
            Tool::Eza(t) => t.manager(),
            Tool::Ripgrep(t) => t.manager(),
            Tool::Fd(t) => t.manager(),
            Tool::Neovim(t) => t.manager(),
        }
    }
}

/// The registered tools, in the order they are handled.
pub open spec fn registry() -> Seq<Tool> {
    seq![Tool::Eza(Eza), Tool::Ripgrep(Ripgrep), Tool::Fd(Fd), Tool::Neovim(Neovim)]
}

/// The registered tools, in the order they are handled.
pub fn all_tools() -> (r: Vec<Tool>)
    ensures
        r@ == registry(),
{
    let r = vec![Tool::Eza(Eza), Tool::Ripgrep(Ripgrep), Tool::Fd(Fd), Tool::Neovim(Neovim)];
    assert(r@ =~= registry());
    r
}

/// The line `tools list` prints for a tool.
pub open spec fn status_line_spec(t: Tool, installed: bool) -> Seq<char> {
    tool_name(t) + ": "@ + if installed {
        "Installed"@
    } else {
        "Not Installed"@
    }
}

/// The line that reports whether `tool` is installed.
pub fn status_line(tool: &Tool, installed: bool) -> (r: String)
    ensures
        r@ == status_line_spec(*tool, installed),
{
    let mut r = String::from_str(tool.name());
    r.append(": ");
    if installed {
        r.append("Installed");
    } else {
        r.append("Not Installed");
    }
    r
}

/// The arguments handed to the package manager to install a tool.
pub fn install_args(tool: &Tool) -> (r: Vec<String>)
    ensures
        r@.len() == 2,
        r@[0]@ == "install"@,
        r@[1]@ == tool_package(*tool),
{
    let mut r: Vec<String> = Vec::new();
    r.push(String::from_str("install"));
    r.push(String::from_str(tool.package()));
    r
}

/// What the caller observed while working on the current tool.
#[derive(Debug, Clone, PartialEq, Eq)]
pub enum ToolEvent {
    /// The tool's command was found.
    Present,
    /// The tool's command was not found.
    Absent,
    /// The install command succeeded.
    InstallSucceeded,
    /// The install failed for this reason.
    InstallFailed(DotfilesError),
}

/// The event that reports an install attempt: whether the package manager was
/// found, whether its command succeeded, and what it wrote to its error
/// stream.
pub open spec fn install_event_ok(r: ToolEvent, t: Tool, manager_found: bool, succeeded: bool, stderr: Seq<char>) -> bool {
    if !manager_found {
        r matches ToolEvent::InstallFailed(DotfilesError::ToolUnavailable(p)) && p@
            == manager_program(tool_manager(t))
    } else if !succeeded {
        r matches ToolEvent::InstallFailed(DotfilesError::SubprocessFailure(n, e)) && n@
            == tool_package(t) && e@ == stderr
    } else {
        r == ToolEvent::InstallSucceeded
    }
}

/// Turns the result of an install attempt into the event that reports it.
pub fn install_event(tool: &Tool, manager_found: bool, succeeded: bool, stderr: &str) -> (r:
    ToolEvent)
    ensures
        install_event_ok(r, *tool, manager_found, succeeded, stderr@),
{
    if !manager_found {
        let p = String::from_str(tool.manager().program());
        ToolEvent::InstallFailed(DotfilesError::ToolUnavailable(p))
    } else if !succeeded {
        let n = String::from_str(tool.package());
        ToolEvent::InstallFailed(DotfilesError::SubprocessFailure(n, String::from_str(stderr)))
    } else {
        ToolEvent::InstallSucceeded
    }
}

/// Where the check-and-install workflow stands.
#[derive(Debug, Clone, PartialEq, Eq)]
pub enum ToolRun {
    /// Find out whether the tool at this position is installed.
    Checking(usize),
    /// Install the tool at this position.
    Installing(usize),
    /// Every tool is installed.
    Done,
    /// An install failed; the remaining tools are not attempted.
    Failed(DotfilesError),
}

/// The state that handles the tool at position `i` of `count`, or `Done`
/// past the last one.
pub open spec fn at_position(i: int, count: int) -> ToolRun {
    if i < count {
        ToolRun::Checking(i as usize)
    } else {
        ToolRun::Done
    }
}

/// A state whose position lies within the `count` tools.
pub open spec fn run_valid(run: ToolRun, count: int) -> bool {
    match run {
        ToolRun::Checking(i) => i < count,
        ToolRun::Installing(i) => i < count,
        _ => true,
    }
}

/// The state after `event`: an installed tool is skipped, a missing one is
/// installed, a successful install moves on to the next tool and a failed one
/// stops the workflow. An event that does not fit the state changes nothing.
pub open spec fn next_run(run: ToolRun, event: ToolEvent, count: int) -> ToolRun {
    match (run, event) {
        (ToolRun::Checking(i), ToolEvent::Present) => at_position(i + 1, count),
        (ToolRun::Checking(i), ToolEvent::Absent) => ToolRun::Installing(i),
        (ToolRun::Installing(i), ToolEvent::InstallSucceeded) => at_position(i + 1, count),
        (ToolRun::Installing(_), ToolEvent::InstallFailed(e)) => ToolRun::Failed(e),
        (r, _) => r,
    }
}

/// The first state of a workflow over `count` tools.
pub fn start_tool_run(count: usize) -> (r: ToolRun)
    ensures
        r == at_position(0, count as int),
{
    if count == 0 {
        ToolRun::Done
    } else {
        ToolRun::Checking(0)
    }
}

/// Advances the workflow that installs, in order, every one of `count` tools
/// that is missing, by one observed event.
pub fn check_and_install_tools(run: ToolRun, event: ToolEvent, count: usize) -> (r: ToolRun)
    requires
        run_valid(run, count as int),
    ensures
        r == next_run(run, event, count as int),
        run_valid(r, count as int),
{
    match (run, event) {
        (ToolRun::Checking(i), ToolEvent::Present) => {
            if i + 1 < count {
                ToolRun::Checking(i + 1)
            } else {
                ToolRun::Done
            }
        },
        (ToolRun::Checking(i), ToolEvent::Absent) => ToolRun::Installing(i),
        (ToolRun::Installing(i), ToolEvent::InstallSucceeded) => {
            if i + 1 < count {
                ToolRun::Checking(i + 1)
            } else {
                ToolRun::Done
            }
        },
        (ToolRun::Installing(_), ToolEvent::InstallFailed(e)) => ToolRun::Failed(e),
        (r, _) => r,
    }
}

} // verus!
