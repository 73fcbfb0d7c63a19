use shell_bootstrap::host::{Action, Command, Event, Line, Step, Stream, SEPARATOR};
use shell_bootstrap::installer::{
    bootstrap, install_software, Installer, Settings, HOME_MISSING, INDEX_FAILURE,
    MANAGER_FAILURE, SHELL_FAILURE, SUCCESS, UNSUPPORTED,
};
use shell_bootstrap::platform::Platform;

const SCRIPT: &[u8] = b"#!/bin/sh\necho framework\n";

fn stdout(text: &str) -> Line {
    Line { stream: Stream::Stdout, text: text.to_string() }
}

fn stderr(text: &str) -> Line {
    Line { stream: Stream::Stderr, text: text.to_string() }
}

fn cmd(program: &str, args: &[&str]) -> Command {
    Command {
        program: program.to_string(),
        args: args.iter().map(|arg| arg.to_string()).collect(),
    }
}

fn settings() -> Settings {
    Settings {
        temp_dir: "/tmp".to_string(),
        zsh_custom: None,
        home: Some("/home/me".to_string()),
    }
}

fn curl() -> Command {
    cmd(
        "curl",
        &["-fsSL", "https://raw.githubusercontent.com/ohmyzsh/ohmyzsh/master/tools/install.sh"],
    )
}

fn brew_bootstrap() -> Command {
    cmd(
        "bash",
        &[
            "-c",
            "\"$(curl -fsSL https://raw.githubusercontent.com/Homebrew/install/HEAD/install.sh)\"",
        ],
    )
}

/// A machine to run on: which programs cannot be started, which fail, and
/// what is on its disk.
struct Host {
    missing: Vec<&'static str>,
    failing: Vec<Command>,
    disk: Vec<String>,
    unwritable: Option<Event>,
    ran: Vec<Command>,
    probed: Vec<String>,
    stored: Vec<(String, Vec<u8>)>,
    lines: Vec<Line>,
}

impl Host {
    fn new() -> Host {
        Host {
            missing: Vec::new(),
            failing: Vec::new(),
            disk: Vec::new(),
            unwritable: None,
            ran: Vec::new(),
            probed: Vec::new(),
            stored: Vec::new(),
            lines: Vec::new(),
        }
    }

    fn start(&mut self, command: &Command) -> Option<bool> {
        self.ran.push(command.clone());
        if self.missing.contains(&command.program.as_str()) {
            None
        } else {
            Some(!self.failing.contains(command))
        }
    }

    /// Performs actions until one is final, and returns that one.
    fn drive(&mut self, installer: Option<Installer>, first: Step) -> Action {
        let mut installer = installer;
        let mut step = first;
        loop {
            self.lines.extend(step.lines.iter().cloned());
            let event = match &step.action {
                Action::Run(command) => match self.start(command) {
                    Some(success) => {
                        if success && command.program == "git" {
                            self.disk.push(command.args[2].clone());
                        }
                        Event::Exited { success }
                    }
                    None => Event::LaunchFailed,
                },
                Action::Capture(command) => match self.start(command) {
                    Some(success) => Event::Captured { success, stdout: SCRIPT.to_vec() },
                    None => Event::LaunchFailed,
                },
                Action::Store { path, bytes } => {
                    self.stored.push((path.clone(), bytes.clone()));
                    match &self.unwritable {
                        Some(event) => event.clone(),
                        None => Event::Stored,
                    }
                }
                Action::Probe { path } => {
                    self.probed.push(path.clone());
                    Event::Probed { exists: self.disk.contains(path) }
                }
                Action::Done | Action::Exit { .. } | Action::Abort { .. } => {
                    if let Some(installer) = &installer {
                        assert!(installer.is_finished());
                    }
                    return step.action;
                }
            };
            let machine = installer.as_mut().unwrap();
            assert!(!machine.is_finished());
            step = machine.handle(event).unwrap();
        }
    }

    fn run(&mut self, os: &str, settings: Settings) -> Action {
        let (installer, first) = bootstrap(os, settings);
        self.drive(installer, first)
    }
}

fn framework_lines() -> Vec<Line> {
    vec![stdout("Oh My Zsh has been installed successfully."), stdout(SEPARATOR)]
}

fn plugin_names() -> [&'static str; 5] {
    ["zsh-z", "zsh-autosuggestions", "zsh-completions", "zsh-syntax-highlighting", "powerlevel10k"]
}

#[test]
fn the_messages_are_the_expected_ones() {
    assert_eq!(UNSUPPORTED, "Unsupported platform");
    assert_eq!(MANAGER_FAILURE, "Failed to install Homebrew");
    assert_eq!(INDEX_FAILURE, "Failed to update package list");
    assert_eq!(SHELL_FAILURE, "Failed to install Zsh");
    assert_eq!(HOME_MISSING, "HOME is not set");
    assert_eq!(SUCCESS, "Homebrew, Zsh, and Oh My Zsh have been installed successfully.");
}

#[test]
fn unsupported_platform_runs_nothing() {
    for os in ["windows", "freebsd", "", "Linux", "darwin"] {
        let (installer, first) = bootstrap(os, settings());
        assert!(installer.is_none());
        assert_eq!(
            first,
            Step {
                lines: vec![stderr("Unsupported platform")],
                action: Action::Exit { code: 1 },
            }
        );
        let mut host = Host::new();
        assert_eq!(host.run(os, settings()), Action::Exit { code: 1 });
        assert_eq!(host.ran, Vec::<Command>::new());
        assert_eq!(host.probed, Vec::<String>::new());
        assert_eq!(host.stored, Vec::new());
    }
}

#[test]
fn darwin_with_the_package_manager_in_place() {
    let mut host = Host::new();
    assert_eq!(host.run("macos", settings()), Action::Done);
    assert_eq!(
        host.ran,
        vec![
            cmd("brew", &[]),
            cmd("brew", &["install", "zsh"]),
            curl(),
            cmd("sh", &["/tmp/ohmyzsh_install.sh"]),
        ]
    );
    assert_eq!(host.stored, vec![("/tmp/ohmyzsh_install.sh".to_string(), SCRIPT.to_vec())]);
    assert_eq!(host.probed, Vec::<String>::new());
    let mut lines = framework_lines();
    lines.push(stdout("Homebrew, Zsh, and Oh My Zsh have been installed successfully."));
    assert_eq!(host.lines, lines);
}

#[test]
fn darwin_probe_exit_status_does_not_matter() {
    let mut host = Host::new();
    host.failing.push(cmd("brew", &[]));
    assert_eq!(host.run("macos", settings()), Action::Done);
    assert_eq!(host.ran[1], cmd("brew", &["install", "zsh"]));
    assert_eq!(host.ran.len(), 4);
}

#[test]
fn darwin_installs_a_missing_package_manager() {
    let (installer, first) = install_software(Platform::Darwin, settings());
    assert_eq!(installer.platform(), Platform::Darwin);
    assert_eq!(first, Step { lines: Vec::new(), action: Action::Run(cmd("brew", &[])) });
    let mut installer = installer;
    let step = installer.handle(Event::LaunchFailed).unwrap();
    assert_eq!(step, Step { lines: Vec::new(), action: Action::Run(brew_bootstrap()) });
    for success in [true, false] {
        let (mut installer, _) = install_software(Platform::Darwin, settings());
        installer.handle(Event::LaunchFailed).unwrap();
        let step = installer.handle(Event::Exited { success }).unwrap();
        assert_eq!(
            step,
            Step { lines: Vec::new(), action: Action::Run(cmd("brew", &["install", "zsh"])) }
        );
    }
}

#[test]
fn darwin_gives_up_when_the_package_manager_installer_cannot_start() {
    let mut host = Host::new();
    host.missing = vec!["brew", "bash"];
    assert_eq!(
        host.run("macos", settings()),
        Action::Abort { message: "Failed to install Homebrew".to_string() }
    );
    assert_eq!(host.ran, vec![cmd("brew", &[]), brew_bootstrap()]);
    assert_eq!(host.lines, Vec::new());
}

#[test]
fn darwin_gives_up_when_the_shell_is_not_installed() {
    let mut host = Host::new();
    host.failing.push(cmd("brew", &["install", "zsh"]));
    assert_eq!(
        host.run("macos", settings()),
        Action::Abort { message: "Failed to install Zsh".to_string() }
    );
    assert_eq!(host.ran, vec![cmd("brew", &[]), cmd("brew", &["install", "zsh"])]);
}

#[test]
fn linux_with_nothing_installed() {
    let mut host = Host::new();
    assert_eq!(host.run("linux", settings()), Action::Done);
    let mut ran = vec![
        cmd("sudo", &["apt", "update"]),
        cmd("sudo", &["apt", "install", "-y", "zsh"]),
        curl(),
        cmd("sh", &["/tmp/ohmyzsh_install.sh"]),
    ];
    let urls = [
        "https://github.com/agkozak/zsh-z",
        "https://github.com/zsh-users/zsh-autosuggestions",
        "https://github.com/zsh-users/zsh-completions",
        "https://github.com/zsh-users/zsh-syntax-highlighting",
        "https://github.com/romkatv/powerlevel10k",
    ];
    let mut lines = framework_lines();
    let mut probed = Vec::new();
    for (name, url) in plugin_names().iter().zip(urls.iter()) {
        let dir = format!("/home/me/.oh-my-zsh/custom/plugins/{}", name);
        ran.push(cmd("git", &["clone", url, &dir]));
        probed.push(dir);
        lines.push(stdout(&format!("Installing {} plugin...", name)));
        lines.push(stdout(&format!("{} plugin has been installed successfully.", name)));
        lines.push(stdout(SEPARATOR));
    }
    lines.push(stdout("Homebrew, Zsh, and Oh My Zsh have been installed successfully."));
    assert_eq!(host.ran, ran);
    assert_eq!(host.probed, probed);
    assert_eq!(host.lines, lines);
    assert_eq!(host.stored, vec![("/tmp/ohmyzsh_install.sh".to_string(), SCRIPT.to_vec())]);
}

#[test]
fn linux_twice_clones_nothing_the_second_time() {
    let mut host = Host::new();
    assert_eq!(host.run("linux", settings()), Action::Done);
    host.ran.clear();
    host.lines.clear();
    assert_eq!(host.run("linux", settings()), Action::Done);
    assert_eq!(host.ran.len(), 4);
    assert!(host.ran.iter().all(|command| command.program != "git"));
    let mut lines = framework_lines();
    for name in plugin_names() {
        lines.push(stdout(&format!(
            "{} plugin already exists at: /home/me/.oh-my-zsh/custom/plugins/{}",
            name, name
        )));
        lines.push(stdout(SEPARATOR));
    }
    lines.push(stdout("Homebrew, Zsh, and Oh My Zsh have been installed successfully."));
    assert_eq!(host.lines, lines);
}

#[test]
fn linux_uses_the_plugin_root_override() {
    let mut host = Host::new();
    let settings = Settings {
        temp_dir: "/var/tmp/".to_string(),
        zsh_custom: Some("/opt/zsh".to_string()),
        home: None,
    };
    assert_eq!(host.run("linux", settings), Action::Done);
    assert_eq!(host.probed[0], "/opt/zsh/plugins/zsh-z");
    assert_eq!(host.probed.len(), 5);
    assert_eq!(host.stored[0].0, "/var/tmp/ohmyzsh_install.sh");
    assert_eq!(host.ran[3], cmd("sh", &["/var/tmp/ohmyzsh_install.sh"]));
}

#[test]
fn linux_without_a_plugin_root_gives_up_after_the_framework() {
    let mut host = Host::new();
    let settings = Settings { temp_dir: "/tmp".to_string(), zsh_custom: None, home: None };
    assert_eq!(
        host.run("linux", settings),
        Action::Abort { message: "HOME is not set".to_string() }
    );
    assert_eq!(host.ran.len(), 4);
    assert_eq!(host.probed, Vec::<String>::new());
    assert_eq!(host.lines, framework_lines());
}

#[test]
fn darwin_needs_no_plugin_root() {
    let mut host = Host::new();
    let settings = Settings { temp_dir: "/tmp".to_string(), zsh_custom: None, home: None };
    assert_eq!(host.run("macos", settings), Action::Done);
}

#[test]
fn linux_gives_up_when_the_index_is_not_updated() {
    let mut host = Host::new();
    host.failing.push(cmd("sudo", &["apt", "update"]));
    assert_eq!(
        host.run("linux", settings()),
        Action::Abort { message: "Failed to update package list".to_string() }
    );
    assert_eq!(host.ran, vec![cmd("sudo", &["apt", "update"])]);

    let mut host = Host::new();
    host.missing = vec!["sudo"];
    assert_eq!(
        host.run("linux", settings()),
        Action::Abort { message: "Failed to update package list".to_string() }
    );
    assert_eq!(host.ran, vec![cmd("sudo", &["apt", "update"])]);
}

#[test]
fn linux_gives_up_when_the_shell_is_not_installed() {
    let mut host = Host::new();
    host.failing.push(cmd("sudo", &["apt", "install", "-y", "zsh"]));
    assert_eq!(
        host.run("linux", settings()),
        Action::Abort { message: "Failed to install Zsh".to_string() }
    );
    assert_eq!(host.ran.len(), 2);
    assert_eq!(host.lines, Vec::new());
}

#[test]
fn failed_fetch_ends_the_whole_run() {
    for os in ["linux", "macos"] {
        let mut host = Host::new();
        host.failing.push(curl());
        assert_eq!(host.run(os, settings()), Action::Exit { code: 1 });
        assert_eq!(host.ran.last(), Some(&curl()));
        assert_eq!(host.ran.len(), 3);
        assert_eq!(host.stored, Vec::new());
        assert_eq!(host.probed, Vec::<String>::new());
        assert_eq!(
            host.lines,
            vec![stderr("Failed to download Oh My Zsh install script"), stdout(SEPARATOR)]
        );
    }
}

#[test]
fn failing_framework_script_does_not_stop_the_plugins() {
    let mut host = Host::new();
    host.failing.push(cmd("sh", &["/tmp/ohmyzsh_install.sh"]));
    assert_eq!(host.run("linux", settings()), Action::Done);
    assert_eq!(host.probed.len(), 5);
    assert_eq!(host.lines[0], stderr("Failed to install Oh My Zsh."));
    assert_eq!(host.lines[1], stdout(SEPARATOR));
    assert_eq!(
        host.lines.last(),
        Some(&stdout("Homebrew, Zsh, and Oh My Zsh have been installed successfully."))
    );
}

#[test]
fn unwritable_temp_file_gives_up() {
    let mut host = Host::new();
    host.unwritable = Some(Event::CreateFailed);
    assert_eq!(
        host.run("linux", settings()),
        Action::Abort { message: "Failed to create temporary file".to_string() }
    );
    let mut host = Host::new();
    host.unwritable = Some(Event::WriteFailed);
    assert_eq!(
        host.run("macos", settings()),
        Action::Abort { message: "Failed to write to temporary file".to_string() }
    );
    assert_eq!(host.ran.last(), Some(&curl()));
}

#[test]
fn missing_git_gives_up_at_the_first_absent_plugin() {
    let mut host = Host::new();
    host.missing = vec!["git"];
    host.disk.push("/home/me/.oh-my-zsh/custom/plugins/zsh-z".to_string());
    assert_eq!(
        host.run("linux", settings()),
        Action::Abort { message: "Failed to execute git command".to_string() }
    );
    assert_eq!(host.probed.len(), 2);
    assert_eq!(
        host.ran.last(),
        Some(&cmd(
            "git",
            &[
                "clone",
                "https://github.com/zsh-users/zsh-autosuggestions",
                "/home/me/.oh-my-zsh/custom/plugins/zsh-autosuggestions"
            ]
        ))
    );
}

#[test]
fn failed_plugin_does_not_stop_the_others() {
    let mut host = Host::new();
    host.failing.push(cmd(
        "git",
        &[
            "clone",
            "https://github.com/zsh-users/zsh-completions",
            "/home/me/.oh-my-zsh/custom/plugins/zsh-completions",
        ],
    ));
    assert_eq!(host.run("linux", settings()), Action::Done);
    assert_eq!(host.probed.len(), 5);
    assert!(host.lines.contains(&stderr("Failed to install zsh-completions plugin.")));
    assert!(host.lines.contains(&stdout("powerlevel10k plugin has been installed successfully.")));
    assert_eq!(host.disk.len(), 4);
}

#[test]
fn installer_ignores_events_that_are_no_answer() {
    let (mut installer, first) = install_software(Platform::Linux, settings());
    assert_eq!(first.action, Action::Run(cmd("sudo", &["apt", "update"])));
    assert_eq!(installer.platform(), Platform::Linux);
    for event in [
        Event::Probed { exists: true },
        Event::Stored,
        Event::Captured { success: true, stdout: Vec::new() },
        Event::CreateFailed,
        Event::WriteFailed,
    ] {
        assert_eq!(installer.handle(event), None);
        assert!(!installer.is_finished());
    }
    installer.handle(Event::Exited { success: true }).unwrap();
    installer.handle(Event::Exited { success: true }).unwrap();
    assert_eq!(installer.handle(Event::Exited { success: true }), None);
    assert_eq!(installer.handle(Event::Probed { exists: true }), None);
    installer.handle(Event::LaunchFailed).unwrap();
    assert!(installer.is_finished());
    for event in [Event::Exited { success: true }, Event::LaunchFailed, Event::Stored] {
        assert_eq!(installer.handle(event), None);
        assert!(installer.is_finished());
    }
}
