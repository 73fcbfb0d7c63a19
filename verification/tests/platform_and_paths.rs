use shell_bootstrap::package::Package;
use shell_bootstrap::paths::{join, plugin_dir, plugin_root, script_path, SCRIPT_FILE};
use shell_bootstrap::platform::{detect_platform, Platform};

#[test]
fn macos_is_darwin() {
    assert_eq!(detect_platform("macos"), Some(Platform::Darwin));
}

#[test]
fn linux_is_linux() {
    assert_eq!(detect_platform("linux"), Some(Platform::Linux));
}

#[test]
fn other_systems_are_unsupported() {
    assert_eq!(detect_platform("windows"), None);
    assert_eq!(detect_platform("freebsd"), None);
    assert_eq!(detect_platform("darwin"), None);
    assert_eq!(detect_platform(""), None);
}

#[test]
fn identifiers_are_case_sensitive() {
    assert_eq!(detect_platform("Linux"), None);
    assert_eq!(detect_platform("MacOS"), None);
    assert_eq!(detect_platform("linux "), None);
}

#[test]
fn package_names() {
    assert_eq!(Package::Git.name(), "git");
    assert_eq!(Package::Zsh.name(), "zsh");
    assert_eq!(Package::ZshCompletions.name(), "zsh-completions");
    assert_eq!(Package::BashCompletion.name(), "bash-completion");
}

#[test]
fn plugin_dir_is_root_plugins_name() {
    assert_eq!(
        plugin_dir("/tmp/fakehome/.oh-my-zsh/custom", "zsh-z"),
        "/tmp/fakehome/.oh-my-zsh/custom/plugins/zsh-z"
    );
}

#[test]
fn plugin_dir_does_not_normalise() {
    assert_eq!(plugin_dir("/root/", "p"), "/root//plugins/p");
    assert_eq!(plugin_dir("", "p"), "/plugins/p");
    assert_eq!(plugin_dir("r", ""), "r/plugins/");
}

#[test]
fn plugin_root_prefers_the_override() {
    assert_eq!(plugin_root(Some("/custom"), Some("/home/me")), Some("/custom".to_string()));
    assert_eq!(plugin_root(Some("/custom"), None), Some("/custom".to_string()));
}

#[test]
fn plugin_root_defaults_under_home() {
    assert_eq!(plugin_root(None, Some("/home/me")), Some("/home/me/.oh-my-zsh/custom".to_string()));
}

#[test]
fn plugin_root_needs_override_or_home() {
    assert_eq!(plugin_root(None, None), None);
}

#[test]
fn join_adds_one_separator() {
    assert_eq!(join("/tmp", "f"), "/tmp/f");
    assert_eq!(join("/tmp/", "f"), "/tmp/f");
    assert_eq!(join("", "f"), "f");
    assert_eq!(join("/", "f"), "/f");
    assert_eq!(join("tmp\u{e9}", "f"), "tmp\u{e9}/f");
}

#[test]
fn script_path_is_inside_the_temp_dir() {
    assert_eq!(SCRIPT_FILE, "ohmyzsh_install.sh");
    assert_eq!(script_path("/tmp"), "/tmp/ohmyzsh_install.sh");
    assert_eq!(script_path("/var/tmp/"), "/var/tmp/ohmyzsh_install.sh");
}
