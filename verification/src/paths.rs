//! Where things live on disk.

use vstd::prelude::*;
use vstd::string::*;

verus! {

/// The file name under which the framework's install script is stored.
pub const SCRIPT_FILE: &'static str = "ohmyzsh_install.sh";

/// The text of an optional string.
pub open spec fn optional_text(text: Option<String>) -> Option<Seq<char>> {
    match text {
        Some(text) => Some(text@),
        None => None,
    }
}

/// The text of an optional string slice.
pub open spec fn optional_str(text: Option<&str>) -> Option<Seq<char>> {
    match text {
        Some(text) => Some(text@),
        None => None,
    }
}

/// The directory of the plugin `name` under the plugin root `root`.
pub open spec fn plugin_dir_spec(root: Seq<char>, name: Seq<char>) -> Seq<char> {
    root + "/plugins/"@ + name
}

/// The directory of the plugin `name` under the plugin root `root`:
/// `root`, then `/plugins/`, then `name`.
pub fn plugin_dir(root: &str, name: &str) -> (dir: String)
    ensures
        dir@ == plugin_dir_spec(root@, name@),
{
    String::from_str(root).concat("/plugins/").concat(name)
}

/// The plugin root: the override if there is one, else the default place
/// under the home directory, else nothing.
pub open spec fn plugin_root_spec(custom: Option<Seq<char>>, home: Option<Seq<char>>) -> Option<
    Seq<char>,
> {
    match custom {
        Some(custom) => Some(custom),
        None => match home {
            Some(home) => Some(home + "/.oh-my-zsh/custom"@),
            None => None,
        },
    }
}

/// Resolves the plugin root from the override `custom` and the home
/// directory `home`, either of which may be unset.
///
/// The override wins. Without it the root is `.oh-my-zsh/custom` under the
/// home directory. With neither there is no root.
pub fn plugin_root(custom: Option<&str>, home: Option<&str>) -> (root: Option<String>)
    ensures
        optional_text(root) == plugin_root_spec(optional_str(custom), optional_str(home)),
{
    match custom {
        Some(custom) => Some(String::from_str(custom)),
        None => match home {
            Some(home) => Some(String::from_str(home).concat("/.oh-my-zsh/custom")),
            None => None,
        },
    }
}

/// `name` inside the directory `dir`: a `/` goes between them unless `dir`
/// is empty or already ends in one.
pub open spec fn join_spec(dir: Seq<char>, name: Seq<char>) -> Seq<char> {
    if dir.len() > 0 && dir.last() != '/' {
        dir + "/"@ + name
    } else {
        dir + name
    }
}

/// The path of `name` inside the directory `dir`.
pub fn join(dir: &str, name: &str) -> (path: String)
    ensures
        path@ == join_spec(dir@, name@),
{
    let len = dir.unicode_len();
    if len > 0 && dir.get_char(len - 1) != '/' {
        String::from_str(dir).concat("/").concat(name)
    } else {
        String::from_str(dir).concat(name)
    }
}

/// Where the framework's install script is stored inside `temp_dir`.
pub open spec fn script_path_spec(temp_dir: Seq<char>) -> Seq<char> {
    join_spec(temp_dir, SCRIPT_FILE@)
}

/// Where the framework's install script is stored inside `temp_dir`.
pub fn script_path(temp_dir: &str) -> (path: String)
    ensures
        path@ == script_path_spec(temp_dir@),
{
    join(temp_dir, SCRIPT_FILE)
}

} // verus!
