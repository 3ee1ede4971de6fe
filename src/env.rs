//! Values taken from the environment, and the directories derived from them.

use vstd::prelude::*;

use crate::error::DotfilesError;
use crate::text::{join_path, join_spec};

verus! {

/// The value of the variable `name`, given what the environment holds for
/// it; an unset variable is reported by name.
pub fn env_var(name: &str, value: Option<String>) -> (r: Result<String, DotfilesError>)
    ensures
        value is Some ==> (r matches Ok(v) && v@ == value->0@),
        value is None ==> (r matches Err(DotfilesError::MissingEnvironment(n)) && n@ == name@),
{
    match value {
        Some(v) => Ok(v),
        None => Err(DotfilesError::MissingEnvironment(String::from_str(name))),
    }
}

/// Where the tracked files live when no override is given.
pub open spec fn default_dir_spec(home: Seq<char>) -> Seq<char> {
    home + "/.config/dotfiles"@
}

/// The tracked-files directory for a home directory.
pub fn dotfiles_dir_for_home(home: &str) -> (r: String)
    ensures
        r@ == default_dir_spec(home@),
{
    let mut r = String::from_str(home);
    r.append("/.config/dotfiles");
    r
}

/// The tracked-files directory: the override when set, else the default
/// under the home directory, else the default spelled with `~`.
pub open spec fn resolved_dir_spec(dir_override: Option<Seq<char>>, home: Option<Seq<char>>) -> Seq<
    char,
> {
    match dir_override {
        Some(d) => d,
        None => match home {
            Some(h) => default_dir_spec(h),
            None => "~/.config/dotfiles"@,
        },
    }
}

/// The view of an optional string.
pub open spec fn opt_view(o: Option<String>) -> Option<Seq<char>> {
    match o {
        Some(s) => Some(s@),
        None => None,
    }
}

/// Resolves the tracked-files directory from the override variable and the
/// home directory, either of which may be unset.
pub fn resolve_dotfiles_dir(dir_override: Option<String>, home: Option<String>) -> (r: String)
    ensures
        r@ == resolved_dir_spec(opt_view(dir_override), opt_view(home)),
{
    match dir_override {
        Some(d) => d,
        None => match home {
            Some(h) => dotfiles_dir_for_home(h.as_str()),
            None => String::from_str("~/.config/dotfiles"),
        },
    }
}

/// The directory whose entries are linked into the user's configuration
/// directory: `home/.config` inside the tracked-files directory.
pub fn config_source_dir(dotfiles_dir: &str) -> (r: String)
    ensures
        r@ == join_spec(join_spec(dotfiles_dir@, "home"@), ".config"@),
{
    let h = join_path(dotfiles_dir, "home");
    join_path(h.as_str(), ".config")
}

/// The user's configuration directory, `.config` under the home directory.
pub fn config_target_dir(home: &str) -> (r: String)
    ensures
        r@ == join_spec(home@, ".config"@),
{
    join_path(home, ".config")
}

} // verus!
